use gabelstaplerwm::kbd::{Cmd, ConfigValue, KbdError, Keysym, ModeState, ModeSwitch};

#[test]
fn from_value_accepts_strings_only() {
    let cmd = Cmd::from_value("bind1".to_string(), ConfigValue::StringValue("notify-send hi".to_string()));
    match cmd {
        Ok(Cmd::Shell(s)) => assert_eq!(s, "notify-send hi"),
        _ => panic!("expected a shell command"),
    }
    let err = Cmd::from_value("bind1".to_string(), ConfigValue::IntegerValue(5));
    match err {
        Err(KbdError::KeyTypeMismatch(name, at_value)) => {
            assert_eq!(name, "bind1");
            assert!(at_value);
        },
        _ => panic!("expected a type mismatch"),
    }
    assert!(Cmd::from_value("b".to_string(), ConfigValue::BooleanValue(true)).is_err());
    assert!(Cmd::from_value("b".to_string(), ConfigValue::TableValue(2)).is_err());
}

#[test]
fn run_returns_mode_switch() {
    let sw = ModeSwitch::Temporary(2);
    let cmd = Cmd::ModeSwitch(sw);
    assert_eq!(cmd.run(), Some(sw));
    assert!(cmd.shell_command().is_none());
    let shell = Cmd::Shell("true".to_string());
    assert_eq!(shell.run(), None);
    assert_eq!(shell.shell_command().map(|s| s.as_str()), Some("true"));
}

#[test]
fn keysym_orders_by_code() {
    assert!(Keysym(3) < Keysym(7));
    assert!(Keysym(7) > Keysym(3));
    assert_eq!(Keysym(5), Keysym(5));
    assert_eq!(Keysym(5).partial_cmp(&Keysym(5)), Some(std::cmp::Ordering::Equal));
    assert_eq!(Keysym(0).cmp(&Keysym(u32::MAX)), std::cmp::Ordering::Less);
    let mut v = vec![Keysym(9), Keysym(1), Keysym(4)];
    v.sort();
    assert_eq!(v, vec![Keysym(1), Keysym(4), Keysym(9)]);
}

#[test]
fn temporary_switch_reverts_after_one_chain() {
    let mut state = ModeState::new(0);
    state.switch_mode(ModeSwitch::Permanent(1));
    state.finish_chain(Some(ModeSwitch::Temporary(3)));
    assert_eq!(state.current(), 3);
    state.finish_chain(None);
    assert_eq!(state.current(), 1);
    state.finish_chain(None);
    assert_eq!(state.current(), 1);
}

#[test]
fn permanent_switch_persists_over_chains() {
    let mut state = ModeState::new(0);
    state.finish_chain(Some(ModeSwitch::Permanent(2)));
    for _ in 0..10 {
        assert_eq!(state.current(), 2);
        state.finish_chain(None);
    }
    assert_eq!(state.current(), 2);
    state.switch_mode(ModeSwitch::Permanent(4));
    state.finish_chain(None);
    assert_eq!(state.current(), 4);
}
