use ttyrant::control::{C0, C1};

#[test]
fn caret_notation() {
    let c0 = C0::Null;
    let caret_notation = c0.caret_notation();

    assert_eq!(caret_notation, "^@");
}

#[test]
fn abbreviation() {
    let c0 = C0::Null;
    let abbreviation = c0.abbreviation();

    assert_eq!(abbreviation, "NUL");
}

#[test]
fn into_u8() {
    let c0 = C0::Null;
    let byte: u8 = c0.to_byte();

    assert_eq!(byte, 0x00);
}

#[test]
fn from_byte_valid() {
    let c0_res: Result<C0, u8> = C0::from_byte(0x00);

    assert_eq!(c0_res, Ok(C0::Null));
}

#[test]
fn from_byte_invalid() {
    let c0_res: Result<C0, u8> = C0::from_byte(0xFF);

    assert_eq!(c0_res, Err(0xFF));
}

#[test]
fn c0_table_round_trips() {
    assert_eq!(C0::Escape.to_byte(), 0x1B);
    assert_eq!(C0::from_byte(0x1B), Ok(C0::Escape));
    assert_eq!(C0::CarriageReturn.caret_notation(), "^M");
    assert_eq!(C0::CarriageReturn.abbreviation(), "CR");
    assert_eq!(C0::Delete.to_byte(), 0x7F);
    assert_eq!(C0::from_byte(0x7F), Ok(C0::Delete));
    assert_eq!(C0::from_byte(0x21), Err(0x21));
}

#[test]
fn c1_tables() {
    assert_eq!(C1::ControlSequenceIntroducer.to_byte(), 0x9B);
    assert_eq!(C1::ControlSequenceIntroducer.notation(), "[");
    assert_eq!(C1::ControlSequenceIntroducer.abbreviation(), "CSI");
    assert_eq!(C1::from_byte(0x9C), Ok(C1::StringTerminator));
    assert_eq!(C1::from_byte(0x7F), Err(0x7F));
}
