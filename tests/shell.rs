use kernel_core::shell::{run, Command, Key, Shell, ShellAction, Terminal};

#[test]
fn commands_by_name() {
    assert_eq!(run(&"hello".chars().collect()), Command::Hello);
    assert_eq!(run(&"shutdown".chars().collect()), Command::Shutdown);
    assert_eq!(run(&"hell".chars().collect()), Command::NotFound);
    assert_eq!(Command::Hello.message(), "Hello world");
    assert_eq!(Command::NotFound.message(), "Command not found");
}

#[test]
fn shell_line_editing() {
    let mut sh = Shell::new();
    for c in "helo".chars() {
        assert_eq!(sh.handle_keypress(c), ShellAction::Render);
    }
    assert_eq!(sh.handle_keypress('\u{8}'), ShellAction::Render);
    for c in "lo".chars() {
        sh.handle_keypress(c);
    }
    assert_eq!(sh.command().iter().collect::<String>(), "hello");
    assert_eq!(sh.handle_keypress('\n'), ShellAction::Enter(Command::Hello));
    assert!(sh.command().is_empty());
    sh.handle_keypress('x');
    assert_eq!(sh.handle_keypress('\n'), ShellAction::Enter(Command::NotFound));
}

#[test]
fn terminal_collects_keys() {
    let mut t = Terminal::new();
    assert_eq!(t.key_press(Key::Unicode('a')), Some('a'));
    assert_eq!(t.key_press(Key::RawKey), None);
    assert_eq!(t.key_press(Key::Unicode('\n')), None);
    t.enter_cmd();
}
