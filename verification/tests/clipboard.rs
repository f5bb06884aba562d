use grit::clipboard::{open_command, open_command_sequence};
use grit::open_command::{copy_message, copy_payload, osc52_sequence};

#[test]
fn payload_and_sequence() {
    let payload = copy_payload("src/main.rs", 12);
    assert_eq!(payload, " src/main.rs:12");
    assert_eq!(osc52_sequence(&payload), "\x1b]52;c;IHNyYy9tYWluLnJzOjEy\x07");
    assert_eq!(osc52_sequence("\u{e9}"), "\x1b]52;c;w6k=\x07");
    assert_eq!(osc52_sequence(""), "\x1b]52;c;\x07");
    assert_eq!(copy_message(&payload, true), "Copied:  src/main.rs:12");
    assert_eq!(copy_message(&payload, false), "OSC 52: failed to write to /dev/tty");
}

#[test]
fn open_command_bridge() {
    assert_eq!(open_command("/w/a.rs", 1), ":open /w/a.rs:1");
    assert_eq!(open_command_sequence("/w/a.rs", 1), "\x1b]52;c;Om9wZW4gL3cvYS5yczox\x07");
    assert_eq!(open_command("p", 4294967295), ":open p:4294967295");
}
