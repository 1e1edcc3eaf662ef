use heater_dac::commands::{Commands, Dacs};
use heater_dac::console::{
    after_forward, dispatch, feed_packet, is_control, process_input, CommandLine, ConsoleAction,
    Echo, ForwardOutcome,
};
use heater_dac::dac::Channel;

#[test]
fn typing_a_command() {
    let mut line = CommandLine::new();
    let (done, echo) = process_input(&mut line, "help");
    assert_eq!(done, None);
    assert_eq!(echo, vec![Echo::Char('h'), Echo::Char('e'), Echo::Char('l'), Echo::Char('p')]);
    let (done, echo) = process_input(&mut line, "\r\nignored");
    assert_eq!(done, Some(()));
    assert_eq!(echo, vec![Echo::LineEnd]);
    assert_eq!(line.as_str(), "help");
}

#[test]
fn editing_keys() {
    let mut line = CommandLine::new();
    let (done, echo) = process_input(&mut line, "ab\x08c\x7f\x7f\x7fd");
    assert_eq!(done, None);
    assert_eq!(
        echo,
        vec![
            Echo::Char('a'),
            Echo::Char('b'),
            Echo::Erase,
            Echo::Char('c'),
            Echo::Erase,
            Echo::Erase,
            Echo::Char('d')
        ]
    );
    assert_eq!(line.as_str(), "d");
    let (_, echo) = process_input(&mut line, "\x1b[Ax\t");
    assert_eq!(echo, vec![Echo::Char('x')]);
    assert_eq!(line.as_str(), "dx");
}

#[test]
fn empty_lines_prompt_again() {
    let mut line = CommandLine::new();
    let (done, echo) = process_input(&mut line, "\r\n");
    assert_eq!(done, None);
    assert_eq!(echo, vec![Echo::Prompt, Echo::Prompt]);
    assert!(line.is_empty());
}

#[test]
fn overlong_lines_are_discarded() {
    let mut line = CommandLine::new();
    let long: String = std::iter::repeat('x').take(256).collect();
    let (_, echo) = process_input(&mut line, &long);
    assert_eq!(echo.len(), 256);
    assert_eq!(line.as_str().len(), 256);
    let (_, echo) = process_input(&mut line, "y");
    assert_eq!(echo, vec![Echo::Overflow]);
    assert!(line.is_empty());
    let (_, echo) = process_input(&mut line, "é");
    assert_eq!(echo, vec![Echo::Char('é')]);
    line.clear();
    assert!(line.is_empty());
}

#[test]
fn multibyte_characters_count_by_bytes() {
    let mut line = CommandLine::new();
    let text: String = std::iter::repeat('€').take(85).collect();
    let (_, echo) = process_input(&mut line, &text);
    assert_eq!(echo.len(), 85);
    let (_, echo) = process_input(&mut line, "a");
    assert_eq!(echo, vec![Echo::Char('a')]);
    let (_, echo) = process_input(&mut line, "b");
    assert_eq!(echo, vec![Echo::Overflow]);
}

#[test]
fn control_characters() {
    assert!(is_control('\0'));
    assert!(is_control('\x1f'));
    assert!(!is_control(' '));
    assert!(is_control('\x7f'));
    assert!(is_control('\u{9f}'));
    assert!(!is_control('\u{a0}'));
    for c in ['a', '\n', '\u{85}', 'é', '€'] {
        assert_eq!(is_control(c), c.is_control());
    }
}

#[test]
fn packets_that_are_not_text_parse_the_line() {
    let mut line = CommandLine::new();
    let (parse, echo) = feed_packet(&mut line, Some("all-off"));
    assert!(!parse);
    assert_eq!(echo.len(), 7);
    let (parse, echo) = feed_packet(&mut line, None);
    assert!(parse);
    assert!(echo.is_empty());
    assert_eq!(line.as_str(), "all-off");
}

#[test]
fn routing_commands() {
    let read: Commands<f32> = Commands::ReadDac { dac: Dacs::Dac0, channel: Channel::A };
    assert!(matches!(dispatch::<f32, ()>(Ok(Commands::GetReportCadence), false, 1000), ConsoleAction::ReportCadence(1000)));
    assert!(matches!(dispatch::<f32, ()>(Ok(Commands::SetReportCadence(250)), false, 1000), ConsoleAction::UpdateCadence(250)));
    assert!(matches!(dispatch::<f32, ()>(Ok(Commands::Help), false, 1000), ConsoleAction::ShowHelp));
    assert!(matches!(dispatch::<f32, ()>(Ok(read), false, 1000), ConsoleAction::NotReady));
    assert!(matches!(dispatch::<f32, ()>(Ok(read), true, 1000), ConsoleAction::Forward(c) if c == read));
    assert!(matches!(dispatch::<f32, u8>(Err(3), true, 1000), ConsoleAction::ParseFailed(3)));
    assert_eq!(after_forward(false), ForwardOutcome::ChannelFull);
    assert_eq!(after_forward(true), ForwardOutcome::AwaitResponse);
}
