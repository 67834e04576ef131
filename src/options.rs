use vstd::prelude::*;

verus! {

/// The key under which the guest library reads the display-mode flag.
pub const DISPLAY_MODE_KEY: &'static str = "displayMode";

/// Settings for one render call. An unset option is left out of the request,
/// so that the guest library's own default applies.
#[derive(Clone, Copy, Debug)]
pub struct Opts {
    display_mode: Option<bool>,
}

impl View for Opts {
    /// The display-mode flag, if set.
    type V = Option<bool>;

    closed spec fn view(&self) -> Option<bool> {
        self.display_mode
    }
}

impl Opts {
    /// Options with every setting unset.
    pub fn new() -> (r: Opts)
        ensures
            r@ is None,
    {
        Opts { display_mode: None }
    }

    /// The same options with the display-mode flag set to `value`.
    pub fn display_mode(self, value: bool) -> (r: Opts)
        ensures
            r@ == Some(value),
    {
        let mut s = self;
        s.display_mode = Some(value);
        s
    }

    /// The key/value pairs that the guest-side options object receives, in order.
    pub fn entries(&self) -> (r: Vec<OptEntry>)
        ensures
            entries_view(r@) == guest_options(self@),
    {
        let mut r: Vec<OptEntry> = Vec::new();
        match self.display_mode {
            Some(v) => {
                r.push(OptEntry { key: DISPLAY_MODE_KEY.to_owned(), value: v });
            },
            None => {},
        }
        proof {
            assert(entries_view(r@) =~= guest_options(self@));
        }
        r
    }
}

impl Default for Opts {
    fn default() -> (r: Opts)
        ensures
            r@ is None,
    {
        Opts::new()
    }
}

/// One key/value pair written onto the guest-side options object.
#[derive(Debug)]
pub struct OptEntry {
    pub key: String,
    pub value: bool,
}

/// The pairs of a list of entries, keys as text.
pub open spec fn entries_view(s: Seq<OptEntry>) -> Seq<(Seq<char>, bool)> {
    s.map_values(|e: OptEntry| (e.key@, e.value))
}

/// The guest-side options object for a display-mode setting: one pair for a
/// set flag, none for an unset one.
pub open spec fn guest_options(display_mode: Option<bool>) -> Seq<(Seq<char>, bool)> {
    match display_mode {
        Some(v) => seq![(DISPLAY_MODE_KEY@, v)],
        None => seq![],
    }
}

} // verus!
