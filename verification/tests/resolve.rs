use dont::Conclusion;
use dont::resolver::{TableController, resolve};

fn toks(args: &[&str]) -> Vec<Vec<u8>> {
    args.iter().map(|s| s.as_bytes().to_vec()).collect()
}

fn exec(args: &[&str]) -> Conclusion {
    Conclusion::Exec(toks(args))
}

fn absent() -> TableController {
    TableController { sl: false, emacs: false, vim: false }
}

#[test]
fn test_true() {
    let concl = resolve(&absent(), &toks(&["true"]));
    assert_eq!(concl, Conclusion::Exit(1));
}

#[test]
fn test_true_with_dashes() {
    // The boundary layer swallows a leading "--"; the resolver sees "true".
    let concl = resolve(&absent(), &toks(&["true"]));
    assert_eq!(concl, Conclusion::Exit(1));
}

#[test]
fn test_false() {
    let concl = resolve(&absent(), &toks(&["false"]));
    assert_eq!(concl, Conclusion::Exit(0));
}

#[test]
fn test_dont() {
    let concl = resolve(&absent(), &toks(&["dont", "ls"]));
    assert_eq!(concl, exec(&["ls"]));
}

#[test]
fn test_dont_with_dashes() {
    // The boundary layer swallows a leading "--"; the resolver sees the rest.
    let concl = resolve(&absent(), &toks(&["dont", "ls"]));
    assert_eq!(concl, exec(&["ls"]));
}

#[test]
fn test_dont_with_wrong_dashes() {
    // A "--" after the stripped "dont" is an ordinary token, passed through.
    let concl = resolve(&absent(), &toks(&["dont", "--", "ls"]));
    assert_eq!(concl, exec(&["--", "ls"]));
}

#[test]
fn test_ls() {
    let ctl = TableController { sl: false, emacs: false, vim: false };
    let concl = resolve(&ctl, &toks(&["ls"]));
    assert_eq!(concl, Conclusion::Exit(0));
}

#[test]
fn test_ls_when_sl_exists() {
    let ctl = TableController { sl: true, emacs: false, vim: false };
    let concl = resolve(&ctl, &toks(&["ls"]));
    assert_eq!(concl, exec(&["sl"]));
}

#[test]
fn test_ls_with_args_when_sl_exists() {
    let ctl = TableController { sl: true, emacs: false, vim: false };
    let concl = resolve(&ctl, &toks(&["ls", "foo"]));
    assert_eq!(concl, exec(&["sl", "foo"]));
}

#[test]
fn test_sl() {
    let concl = resolve(&absent(), &toks(&["sl"]));
    assert_eq!(concl, exec(&["ls"]));
}

#[test]
fn test_sl_with_args() {
    let concl = resolve(&absent(), &toks(&["sl", "foo"]));
    assert_eq!(concl, exec(&["ls", "foo"]));
}

#[test]
fn test_vim() {
    let ctl = TableController { sl: false, emacs: false, vim: false };
    let concl = resolve(&ctl, &toks(&["vim"]));
    assert_eq!(concl, Conclusion::Exit(0));
}

#[test]
fn test_vim_when_emacs_exists() {
    let ctl = TableController { sl: false, emacs: true, vim: false };
    let concl = resolve(&ctl, &toks(&["vim"]));
    assert_eq!(concl, exec(&["emacs"]));
}

#[test]
fn test_vim_with_args_when_emacs_exists() {
    let ctl = TableController { sl: false, emacs: true, vim: false };
    let concl = resolve(&ctl, &toks(&["vim", "foo"]));
    assert_eq!(concl, exec(&["emacs", "foo"]));
}

#[test]
fn test_emacs() {
    let ctl = TableController { sl: false, emacs: false, vim: false };
    let concl = resolve(&ctl, &toks(&["emacs"]));
    assert_eq!(concl, Conclusion::Exit(0));
}

#[test]
fn test_emacs_when_vim_exists() {
    let ctl = TableController { sl: false, emacs: false, vim: true };
    let concl = resolve(&ctl, &toks(&["emacs"]));
    assert_eq!(concl, exec(&["vim"]));
}

#[test]
fn test_emacs_with_args_when_vim_exists() {
    let ctl = TableController { sl: false, emacs: false, vim: true };
    let concl = resolve(&ctl, &toks(&["emacs", "foo"]));
    assert_eq!(concl, exec(&["vim", "foo"]));
}
