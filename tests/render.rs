use katex_v8::error::Error;
use katex_v8::guest::{check_entry, check_export, check_loaded, take_text, GuestKind, ENTRY_NAME, EXPORT_NAME};
use katex_v8::options::{Opts, DISPLAY_MODE_KEY};
use katex_v8::session::{Action, Event, Phase, RenderRun};

/// Steps a fresh call up to the point where the library is loaded.
fn loaded_run(input: &str, opts: &Opts) -> RenderRun {
    let mut run = RenderRun::new(input, opts);
    assert!(matches!(run.step(Event::Ready), Action::Bootstrap));
    assert!(matches!(run.step(Event::Ready), Action::OpenSession));
    assert!(matches!(run.step(Event::Ready), Action::LoadLibrary));
    match run.step(Event::Loaded(true)) {
        Action::ReadExport(name) => assert_eq!(name, "katex"),
        other => panic!("unexpected {:?}", other),
    }
    run
}

/// Drives a whole call in which the guest answers with `html`.
fn full_run(input: &str, opts: &Opts, html: &str) -> Result<String, Error> {
    let mut run = loaded_run(input, opts);
    match run.step(Event::Found(GuestKind::Object)) {
        Action::ReadEntry(name) => assert_eq!(name, "renderToString"),
        other => panic!("unexpected {:?}", other),
    }
    assert!(matches!(run.step(Event::Found(GuestKind::Function)), Action::Invoke(_, _)));
    assert!(matches!(run.step(Event::Returned), Action::Stringify));
    match run.step(Event::Text(Some(html.to_string()))) {
        Action::Finish(r) => r,
        other => panic!("unexpected {:?}", other),
    }
}

fn finish_of(a: Action) -> Result<String, Error> {
    match a {
        Action::Finish(r) => r,
        other => panic!("expected a finish, got {:?}", other),
    }
}

#[test]
fn names_match_the_library() {
    assert_eq!(EXPORT_NAME, "katex");
    assert_eq!(ENTRY_NAME, "renderToString");
    assert_eq!(DISPLAY_MODE_KEY, "displayMode");
}

#[test]
fn new_options_write_no_pairs() {
    assert!(Opts::new().entries().is_empty());
    assert!(Opts::default().entries().is_empty());
}

#[test]
fn display_mode_writes_one_pair() {
    let e = Opts::new().display_mode(true).entries();
    assert_eq!(e.len(), 1);
    assert_eq!(e[0].key, "displayMode");
    assert!(e[0].value);
    let e = Opts::new().display_mode(false).entries();
    assert_eq!(e.len(), 1);
    assert_eq!(e[0].key, "displayMode");
    assert!(!e[0].value);
}

#[test]
fn display_mode_last_setting_wins() {
    let e = Opts::new().display_mode(true).display_mode(false).entries();
    assert_eq!(e.len(), 1);
    assert!(!e[0].value);
}

#[test]
fn invoke_carries_input_and_options() {
    let opts = Opts::new().display_mode(true);
    let mut run = loaded_run("E = mc^2", &opts);
    run.step(Event::Found(GuestKind::Object));
    match run.step(Event::Found(GuestKind::Function)) {
        Action::Invoke(input, pairs) => {
            assert_eq!(input, "E = mc^2");
            assert_eq!(pairs.len(), 1);
            assert_eq!(pairs[0].key, "displayMode");
            assert!(pairs[0].value);
        }
        other => panic!("unexpected {:?}", other),
    }
    assert_eq!(run.phase(), Phase::Calling);
}

#[test]
fn unset_option_is_left_out_of_the_request() {
    let mut run = loaded_run("x^2", &Opts::new());
    run.step(Event::Found(GuestKind::Object));
    match run.step(Event::Found(GuestKind::Function)) {
        Action::Invoke(input, pairs) => {
            assert_eq!(input, "x^2");
            assert!(pairs.is_empty());
        }
        other => panic!("unexpected {:?}", other),
    }
}

#[test]
fn successful_call_returns_guest_html() {
    let html = "<span class=\"katex-display\"><span class=\"katex\">E=mc^2</span></span>";
    let out = full_run("E = mc^2", &Opts::new().display_mode(true), html).unwrap();
    assert_eq!(out, html);
    assert!(out.contains("class=\"katex-display\""));
    assert!(out.starts_with("<span"));
}

#[test]
fn identical_calls_give_identical_output() {
    let opts = Opts::new().display_mode(true);
    let html = "<span class=\"katex\">E</span>";
    let a = full_run("E = mc^2", &opts, html).unwrap();
    let b = full_run("E = mc^2", &opts, html).unwrap();
    assert_eq!(a, b);
}

#[test]
fn failed_script_is_init_failure() {
    let mut run = RenderRun::new("x", &Opts::new());
    run.step(Event::Ready);
    run.step(Event::Ready);
    run.step(Event::Ready);
    match finish_of(run.step(Event::Loaded(false))) {
        Err(Error::InitFailed(m)) => assert_eq!(m, "compile"),
        other => panic!("unexpected {:?}", other),
    }
    assert_eq!(run.phase(), Phase::Finished);
}

#[test]
fn missing_export_is_value_error() {
    let mut run = loaded_run("x", &Opts::new());
    match finish_of(run.step(Event::Found(GuestKind::Missing))) {
        Err(Error::ValueError(m)) => assert_eq!(m, "missing export"),
        other => panic!("unexpected {:?}", other),
    }
}

#[test]
fn export_of_wrong_type_is_value_error() {
    for k in [GuestKind::Primitive, GuestKind::Function] {
        let mut run = loaded_run("x", &Opts::new());
        match finish_of(run.step(Event::Found(k))) {
            Err(Error::ValueError(m)) => assert_eq!(m, "wrong type"),
            other => panic!("unexpected {:?}", other),
        }
    }
}

#[test]
fn uncallable_entry_is_value_error() {
    for k in [GuestKind::Missing, GuestKind::Primitive, GuestKind::Object] {
        let mut run = loaded_run("x", &Opts::new());
        run.step(Event::Found(GuestKind::Object));
        match finish_of(run.step(Event::Found(k))) {
            Err(Error::ValueError(m)) => assert_eq!(m, "entry point not found"),
            other => panic!("unexpected {:?}", other),
        }
    }
}

#[test]
fn rejected_markup_is_exec_error() {
    let mut run = loaded_run("\\frac{1}{", &Opts::new());
    run.step(Event::Found(GuestKind::Object));
    run.step(Event::Found(GuestKind::Function));
    let msg = "ParseError: KaTeX parse error: Expected '}', got 'EOF' at end of input";
    match finish_of(run.step(Event::Threw(msg.to_string()))) {
        Err(Error::ExecError(m)) => assert_eq!(m, msg),
        other => panic!("unexpected {:?}", other),
    }
    assert!(!run.expects(&Event::Ready));
}

#[test]
fn failed_coercion_is_value_error() {
    let mut run = loaded_run("x", &Opts::new());
    run.step(Event::Found(GuestKind::Object));
    run.step(Event::Found(GuestKind::Function));
    run.step(Event::Returned);
    match finish_of(run.step(Event::Text(None))) {
        Err(Error::ValueError(m)) => assert_eq!(m, "coercion failed"),
        other => panic!("unexpected {:?}", other),
    }
}

#[test]
fn run_waits_for_the_right_events() {
    let mut run = RenderRun::new("x", &Opts::new());
    assert_eq!(run.phase(), Phase::Fresh);
    assert!(run.expects(&Event::Ready));
    assert!(!run.expects(&Event::Returned));
    run.step(Event::Ready);
    run.step(Event::Ready);
    run.step(Event::Ready);
    assert_eq!(run.phase(), Phase::Loading);
    assert!(run.expects(&Event::Loaded(true)));
    assert!(!run.expects(&Event::Found(GuestKind::Object)));
    run.step(Event::Loaded(true));
    assert!(run.expects(&Event::Found(GuestKind::Missing)));
    run.step(Event::Found(GuestKind::Object));
    run.step(Event::Found(GuestKind::Function));
    assert!(run.expects(&Event::Returned));
    assert!(run.expects(&Event::Threw(String::new())));
    assert!(!run.expects(&Event::Text(None)));
    run.step(Event::Returned);
    assert!(run.expects(&Event::Text(None)));
    run.step(Event::Text(Some("ok".to_string())));
    assert_eq!(run.phase(), Phase::Finished);
    assert!(!run.expects(&Event::Ready));
    assert!(!run.expects(&Event::Text(None)));
}

#[test]
fn checks_decide_each_step() {
    assert!(check_loaded(true).is_ok());
    assert!(matches!(check_loaded(false), Err(Error::InitFailed(_))));
    assert!(check_export(GuestKind::Object).is_ok());
    assert!(matches!(check_export(GuestKind::Missing), Err(Error::ValueError(_))));
    assert!(check_entry(GuestKind::Function).is_ok());
    assert!(matches!(check_entry(GuestKind::Object), Err(Error::ValueError(_))));
    assert_eq!(take_text(Some("<span>".to_string())).unwrap(), "<span>");
    assert!(matches!(take_text(None), Err(Error::ValueError(_))));
}
