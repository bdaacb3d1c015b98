use winptyrs::pty::messages::{push_decimal, size_error};
use winptyrs::pty::wide::{
    build_command_line, build_environment_block, terminate, terminate_optional,
};
use winptyrs::pty::winpty::{
    WINPTY_FLAG_COLOR_ESCAPES, WINPTY_FLAG_CONERR, WINPTY_FLAG_PLAIN_OUTPUT,
};
use winptyrs::pty::{add_error, PTYBackend};
use winptyrs::{AgentConfig, MouseMode};

fn wide(text: &str) -> Vec<u16> {
    text.encode_utf16().collect()
}

#[test]
fn size_error_names_both_dimensions() {
    assert_eq!(
        size_error(0, 25),
        "PTY cols and rows must be positive and non-zero. Got: (0, 25)"
    );
    assert_eq!(
        size_error(80, -1),
        "PTY cols and rows must be positive and non-zero. Got: (80, -1)"
    );
    assert_eq!(
        size_error(i32::MIN, i32::MAX),
        "PTY cols and rows must be positive and non-zero. Got: (-2147483648, 2147483647)"
    );
}

#[test]
fn decimal_agrees_with_the_standard_library() {
    let numbers =
        [0, 1, 9, 10, 11, 99, 100, 101, 12345, -1, -9, -10, -100, i32::MAX, i32::MIN, -2147483647];
    for n in numbers {
        let mut text = String::from("n=");
        push_decimal(&mut text, n);
        assert_eq!(text, format!("n={}", n));
    }
}

#[test]
fn error_list_has_the_documented_shape() {
    let heading = String::from("There were some errors trying to instantiate a PTY:");
    let first = add_error(heading, PTYBackend::ConPTY, &String::from("no console"));
    assert_eq!(
        first,
        "There were some errors trying to instantiate a PTY: (ConPTY) -> no console;"
    );
    let second = add_error(first, PTYBackend::WinPTY, &String::from("no agent"));
    assert_eq!(
        second,
        "There were some errors trying to instantiate a PTY: (ConPTY) -> no console; (WinPTY) -> no agent;"
    );
}

#[test]
fn command_line_puts_the_path_first() {
    assert_eq!(
        build_command_line(wide("C:\\Windows\\System32\\cmd.exe"), None),
        wide("C:\\Windows\\System32\\cmd.exe\0")
    );
    assert_eq!(
        build_command_line(wide("C:\\Windows\\System32\\cmd.exe"), Some(wide("/c dir"))),
        wide("C:\\Windows\\System32\\cmd.exe /c dir\0")
    );
    assert_eq!(build_command_line(wide("a"), Some(Vec::new())), wide("a \0"));
    assert_eq!(build_command_line(Vec::new(), None), wide("\0"));
}

#[test]
fn environment_block_ends_in_two_zero_units() {
    assert_eq!(build_environment_block(wide("A=1\0B=2")), wide("A=1\0B=2\0\0"));
    assert_eq!(build_environment_block(wide("A=1\0B=2\0")), wide("A=1\0B=2\0\0"));
    assert_eq!(build_environment_block(wide("A=1\0B=2\0\0")), wide("A=1\0B=2\0\0"));
    assert_eq!(build_environment_block(Vec::new()), wide("\0\0"));
    assert_eq!(build_environment_block(wide("\0")), wide("\0\0"));
    assert_eq!(build_environment_block(wide("\0\0")), wide("\0\0"));
}

#[test]
fn terminated_strings_end_in_one_zero_unit() {
    assert_eq!(terminate(wide("C:\\")), wide("C:\\\0"));
    assert_eq!(terminate(Vec::new()), vec![0]);
    assert_eq!(terminate_optional(Some(wide("x"))), Some(wide("x\0")));
    assert_eq!(terminate_optional(None), None);
}

#[test]
fn backends_and_numbers_correspond() {
    assert_eq!(PTYBackend::from_i32(0), Some(PTYBackend::ConPTY));
    assert_eq!(PTYBackend::from_i32(1), Some(PTYBackend::WinPTY));
    assert_eq!(PTYBackend::from_i32(2), Some(PTYBackend::Auto));
    assert_eq!(PTYBackend::from_i32(3), Some(PTYBackend::NoBackend));
    assert_eq!(PTYBackend::from_i32(4), None);
    assert_eq!(PTYBackend::from_i32(-1), None);
    for n in 0..4 {
        assert_eq!(PTYBackend::from_i32(n).unwrap().to_i32(), n);
    }
}

#[test]
fn mouse_modes_and_numbers_correspond() {
    assert_eq!(MouseMode::from_i32(0), Some(MouseMode::WINPTY_MOUSE_MODE_NONE));
    assert_eq!(MouseMode::from_i32(1), Some(MouseMode::WINPTY_MOUSE_MODE_AUTO));
    assert_eq!(MouseMode::from_i32(2), Some(MouseMode::WINPTY_MOUSE_MODE_FORCE));
    assert_eq!(MouseMode::from_i32(3), None);
    assert_eq!(MouseMode::from_i32(-1), None);
    assert_eq!(MouseMode::WINPTY_MOUSE_MODE_FORCE.to_i32(), 2);
}

#[test]
fn agent_flags_are_a_set() {
    assert_eq!(WINPTY_FLAG_CONERR, 1);
    assert_eq!(WINPTY_FLAG_PLAIN_OUTPUT, 2);
    assert_eq!(WINPTY_FLAG_COLOR_ESCAPES, 4);
    assert_eq!(AgentConfig::empty().bits(), 0);
    let color = AgentConfig::from_bits(WINPTY_FLAG_COLOR_ESCAPES).unwrap();
    let conerr = AgentConfig::from_bits(WINPTY_FLAG_CONERR).unwrap();
    assert_eq!(color.bits(), 4);
    assert_eq!(color.union(conerr).bits(), 5);
    assert!(color.union(conerr).contains(color));
    assert!(!color.contains(conerr));
    assert!(color.contains(AgentConfig::empty()));
    assert_eq!(AgentConfig::from_bits(7).unwrap().bits(), 7);
    assert_eq!(AgentConfig::from_bits(8), None);
    assert_eq!(AgentConfig::from_bits(u64::MAX), None);
}
