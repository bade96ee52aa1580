use rustyboy::errors::{Error, ErrorKind};

#[test]
fn error_texts() {
    assert_eq!(Error::simple(ErrorKind::IO).message(), "IO error");
    assert_eq!(Error::simple(ErrorKind::Validation).message(), "Validation error");
    assert_eq!(
        Error::new(ErrorKind::InvalidInput, "no rom".to_string()).message(),
        "no rom"
    );
    let e = Error::unknown_instruction(0xd3, 0x0150);
    assert_eq!(e.message(), "Unimplemented opcode d3@0150");
    assert_eq!(e.kind(), ErrorKind::UnknownInstruction);
    assert_eq!(e.instruction(), Some((0xd3, 0x0150)));
    assert_eq!(Error::simple(ErrorKind::IO).instruction(), None);
    assert_eq!(ErrorKind::InvalidInput.as_str(), "Invalid input");
}
