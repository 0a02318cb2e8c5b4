//! Control-code tables: the fixed set of C0 and C1 control codes with
//! their byte values, short mnemonics and display notations. Pure lookup
//! data for the protocol layer's `Execute` action and for diagnostics.

use vstd::prelude::*;

verus! {

/// C0 control codes of ISO/IEC 2022 (plus space and delete, which sit
/// outside the range but are handled alongside it).
#[derive(Debug, PartialEq, Eq, Structural, Copy, Clone)]
pub enum C0 {
    Null,
    StartOfHeading,
    StartOfText,
    EndOfText,
    EndOfTransmission,
    Enquiry,
    Acknowledge,
    Alert,
    Backspace,
    CharacterTabulation,
    LineFeed,
    LineTabulation,
    FormFeed,
    CarriageReturn,
    ShiftOut,
    ShiftIn,
    DataLinkEscape,
    DeviceControlOne,
    DeviceControlTwo,
    DeviceControlThree,
    DeviceControlFour,
    NegativeAcknowledge,
    SynchronousIdle,
    EndOfTransmissionBlock,
    Cancel,
    EndOfMedium,
    Substitute,
    Escape,
    FileSeparator,
    GroupSeparator,
    RecordSeparator,
    UnitSeparator,
    Space,
    Delete,
}

/// C1 control codes of ISO/IEC 2022.
#[derive(Debug, PartialEq, Eq, Structural, Copy, Clone)]
pub enum C1 {
    PaddingCharacter,
    HighOctetPreset,
    BreakPermittedHere,
    NoBreakHere,
    Index,
    NextLine,
    StartOfSelectedArea,
    EndOfSelectedArea,
    CharacterTabulationSet,
    CharacterTabulationWithJustification,
    LineTabulationSet,
    PartialLineForward,
    PartialLineBackward,
    ReverseLineFeed,
    SingleShift2,
    SingleShift3,
    DeviceControlString,
    PrivateUser1,
    PrivateUser2,
    SetTransmitState,
    CancelCharacter,
    MessageWaiting,
    StartOfProtectedArea,
    EndOfProtectedArea,
    StartOfString,
    SingleGraphicCharacterIntroducer,
    SingleCharacterIntroducer,
    ControlSequenceIntroducer,
    StringTerminator,
    OperatingSystemCommand,
    PrivacyMessage,
    ApplicationProgramCommand,
}

/// The byte value of each code.
pub open spec fn c0_byte(c: C0) -> u8 {
    match c {
        C0::Null => 0x00,
        C0::StartOfHeading => 0x01,
        C0::StartOfText => 0x02,
        C0::EndOfText => 0x03,
        C0::EndOfTransmission => 0x04,
        C0::Enquiry => 0x05,
        C0::Acknowledge => 0x06,
        C0::Alert => 0x07,
        C0::Backspace => 0x08,
        C0::CharacterTabulation => 0x09,
        C0::LineFeed => 0x0A,
        C0::LineTabulation => 0x0B,
        C0::FormFeed => 0x0C,
        C0::CarriageReturn => 0x0D,
        C0::ShiftOut => 0x0E,
        C0::ShiftIn => 0x0F,
        C0::DataLinkEscape => 0x10,
        C0::DeviceControlOne => 0x11,
        C0::DeviceControlTwo => 0x12,
        C0::DeviceControlThree => 0x13,
        C0::DeviceControlFour => 0x14,
        C0::NegativeAcknowledge => 0x15,
        C0::SynchronousIdle => 0x16,
        C0::EndOfTransmissionBlock => 0x17,
        C0::Cancel => 0x18,
        C0::EndOfMedium => 0x19,
        C0::Substitute => 0x1A,
        C0::Escape => 0x1B,
        C0::FileSeparator => 0x1C,
        C0::GroupSeparator => 0x1D,
        C0::RecordSeparator => 0x1E,
        C0::UnitSeparator => 0x1F,
        C0::Space => 0x20,
        C0::Delete => 0x7F,
    }
}

/// The caret notation of each C0 code.
pub open spec fn c0_caret(c: C0) -> Seq<char> {
    match c {
        C0::Null => "^@"@,
        C0::StartOfHeading => "^A"@,
        C0::StartOfText => "^B"@,
        C0::EndOfText => "^C"@,
        C0::EndOfTransmission => "^D"@,
        C0::Enquiry => "^E"@,
        C0::Acknowledge => "^F"@,
        C0::Alert => "^G"@,
        C0::Backspace => "^H"@,
        C0::CharacterTabulation => "^I"@,
        C0::LineFeed => "^J"@,
        C0::LineTabulation => "^K"@,
        C0::FormFeed => "^L"@,
        C0::CarriageReturn => "^M"@,
        C0::ShiftOut => "^N"@,
        C0::ShiftIn => "^O"@,
        C0::DataLinkEscape => "^P"@,
        C0::DeviceControlOne => "^Q"@,
        C0::DeviceControlTwo => "^R"@,
        C0::DeviceControlThree => "^S"@,
        C0::DeviceControlFour => "^T"@,
        C0::NegativeAcknowledge => "^U"@,
        C0::SynchronousIdle => "^V"@,
        C0::EndOfTransmissionBlock => "^W"@,
        C0::Cancel => "^X"@,
        C0::EndOfMedium => "^Y"@,
        C0::Substitute => "^Z"@,
        C0::Escape => "^["@,
        C0::FileSeparator => "^\\"@,
        C0::GroupSeparator => "^]"@,
        C0::RecordSeparator => "^^"@,
        C0::UnitSeparator => "^_"@,
        C0::Space => " "@,
        C0::Delete => "^?"@,
    }
}

/// The short mnemonic of each C0 code.
pub open spec fn c0_abbreviation(c: C0) -> Seq<char> {
    match c {
        C0::Null => "NUL"@,
        C0::StartOfHeading => "SOH"@,
        C0::StartOfText => "STX"@,
        C0::EndOfText => "ETX"@,
        C0::EndOfTransmission => "EOT"@,
        C0::Enquiry => "ENQ"@,
        C0::Acknowledge => "ACK"@,
        C0::Alert => "BEL"@,
        C0::Backspace => "BS"@,
        C0::CharacterTabulation => "HT"@,
        C0::LineFeed => "LF"@,
        C0::LineTabulation => "VT"@,
        C0::FormFeed => "FF"@,
        C0::CarriageReturn => "CR"@,
        C0::ShiftOut => "SO"@,
        C0::ShiftIn => "SI"@,
        C0::DataLinkEscape => "DLE"@,
        C0::DeviceControlOne => "XON"@,
        C0::DeviceControlTwo => "TAPE"@,
        C0::DeviceControlThree => "XOFF"@,
        C0::DeviceControlFour => "TAPE"@,
        C0::NegativeAcknowledge => "NAK"@,
        C0::SynchronousIdle => "SYN"@,
        C0::EndOfTransmissionBlock => "ETB"@,
        C0::Cancel => "CAN"@,
        C0::EndOfMedium => "EM"@,
        C0::Substitute => "SUB"@,
        C0::Escape => "ESC"@,
        C0::FileSeparator => "FS"@,
        C0::GroupSeparator => "GS"@,
        C0::RecordSeparator => "RS"@,
        C0::UnitSeparator => "US"@,
        C0::Space => "SP"@,
        C0::Delete => "DEL"@,
    }
}

/// The code a byte names, or the byte itself where none does.
pub open spec fn c0_from_byte(b: u8) -> Result<C0, u8> {
    if b == 0x00 {
        Ok(C0::Null)
    } else if b == 0x01 {
        Ok(C0::StartOfHeading)
    } else if b == 0x02 {
        Ok(C0::StartOfText)
    } else if b == 0x03 {
        Ok(C0::EndOfText)
    } else if b == 0x04 {
        Ok(C0::EndOfTransmission)
    } else if b == 0x05 {
        Ok(C0::Enquiry)
    } else if b == 0x06 {
        Ok(C0::Acknowledge)
    } else if b == 0x07 {
        Ok(C0::Alert)
    } else if b == 0x08 {
        Ok(C0::Backspace)
    } else if b == 0x09 {
        Ok(C0::CharacterTabulation)
    } else if b == 0x0A {
        Ok(C0::LineFeed)
    } else if b == 0x0B {
        Ok(C0::LineTabulation)
    } else if b == 0x0C {
        Ok(C0::FormFeed)
    } else if b == 0x0D {
        Ok(C0::CarriageReturn)
    } else if b == 0x0E {
        Ok(C0::ShiftOut)
    } else if b == 0x0F {
        Ok(C0::ShiftIn)
    } else if b == 0x10 {
        Ok(C0::DataLinkEscape)
    } else if b == 0x11 {
        Ok(C0::DeviceControlOne)
    } else if b == 0x12 {
        Ok(C0::DeviceControlTwo)
    } else if b == 0x13 {
        Ok(C0::DeviceControlThree)
    } else if b == 0x14 {
        Ok(C0::DeviceControlFour)
    } else if b == 0x15 {
        Ok(C0::NegativeAcknowledge)
    } else if b == 0x16 {
        Ok(C0::SynchronousIdle)
    } else if b == 0x17 {
        Ok(C0::EndOfTransmissionBlock)
    } else if b == 0x18 {
        Ok(C0::Cancel)
    } else if b == 0x19 {
        Ok(C0::EndOfMedium)
    } else if b == 0x1A {
        Ok(C0::Substitute)
    } else if b == 0x1B {
        Ok(C0::Escape)
    } else if b == 0x1C {
        Ok(C0::FileSeparator)
    } else if b == 0x1D {
        Ok(C0::GroupSeparator)
    } else if b == 0x1E {
        Ok(C0::RecordSeparator)
    } else if b == 0x1F {
        Ok(C0::UnitSeparator)
    } else if b == 0x20 {
        Ok(C0::Space)
    } else if b == 0x7F {
        Ok(C0::Delete)
    } else {
        Err(b)
    }
}

/// The byte value of each code.
pub open spec fn c1_byte(c: C1) -> u8 {
    match c {
        C1::PaddingCharacter => 0x80,
        C1::HighOctetPreset => 0x81,
        C1::BreakPermittedHere => 0x82,
        C1::NoBreakHere => 0x83,
        C1::Index => 0x84,
        C1::NextLine => 0x85,
        C1::StartOfSelectedArea => 0x86,
        C1::EndOfSelectedArea => 0x87,
        C1::CharacterTabulationSet => 0x88,
        C1::CharacterTabulationWithJustification => 0x89,
        C1::LineTabulationSet => 0x8A,
        C1::PartialLineForward => 0x8B,
        C1::PartialLineBackward => 0x8C,
        C1::ReverseLineFeed => 0x8D,
        C1::SingleShift2 => 0x8E,
        C1::SingleShift3 => 0x8F,
        C1::DeviceControlString => 0x90,
        C1::PrivateUser1 => 0x91,
        C1::PrivateUser2 => 0x92,
        C1::SetTransmitState => 0x93,
        C1::CancelCharacter => 0x94,
        C1::MessageWaiting => 0x95,
        C1::StartOfProtectedArea => 0x96,
        C1::EndOfProtectedArea => 0x97,
        C1::StartOfString => 0x98,
        C1::SingleGraphicCharacterIntroducer => 0x99,
        C1::SingleCharacterIntroducer => 0x9A,
        C1::ControlSequenceIntroducer => 0x9B,
        C1::StringTerminator => 0x9C,
        C1::OperatingSystemCommand => 0x9D,
        C1::PrivacyMessage => 0x9E,
        C1::ApplicationProgramCommand => 0x9F,
    }
}

/// The escape notation of each C1 code.
pub open spec fn c1_notation(c: C1) -> Seq<char> {
    match c {
        C1::PaddingCharacter => "@"@,
        C1::HighOctetPreset => "A"@,
        C1::BreakPermittedHere => "B"@,
        C1::NoBreakHere => "C"@,
        C1::Index => "D"@,
        C1::NextLine => "E"@,
        C1::StartOfSelectedArea => "F"@,
        C1::EndOfSelectedArea => "G"@,
        C1::CharacterTabulationSet => "H"@,
        C1::CharacterTabulationWithJustification => "I"@,
        C1::LineTabulationSet => "J"@,
        C1::PartialLineForward => "K"@,
        C1::PartialLineBackward => "L"@,
        C1::ReverseLineFeed => "M"@,
        C1::SingleShift2 => "N"@,
        C1::SingleShift3 => "O"@,
        C1::DeviceControlString => "P"@,
        C1::PrivateUser1 => "Q"@,
        C1::PrivateUser2 => "R"@,
        C1::SetTransmitState => "S"@,
        C1::CancelCharacter => "T"@,
        C1::MessageWaiting => "U"@,
        C1::StartOfProtectedArea => "V"@,
        C1::EndOfProtectedArea => "W"@,
        C1::StartOfString => "X"@,
        C1::SingleGraphicCharacterIntroducer => "Y"@,
        C1::SingleCharacterIntroducer => "Z"@,
        C1::ControlSequenceIntroducer => "["@,
        C1::StringTerminator => "\\"@,
        C1::OperatingSystemCommand => "]"@,
        C1::PrivacyMessage => "^"@,
        C1::ApplicationProgramCommand => "_"@,
    }
}

/// The short mnemonic of each C1 code.
pub open spec fn c1_abbreviation(c: C1) -> Seq<char> {
    match c {
        C1::PaddingCharacter => "PAD"@,
        C1::HighOctetPreset => "HOP"@,
        C1::BreakPermittedHere => "BHP"@,
        C1::NoBreakHere => "NBH"@,
        C1::Index => "IND"@,
        C1::NextLine => "NEL"@,
        C1::StartOfSelectedArea => "SSA"@,
        C1::EndOfSelectedArea => "ESA"@,
        C1::CharacterTabulationSet => "HTS"@,
        C1::CharacterTabulationWithJustification => "HTJ"@,
        C1::LineTabulationSet => "VTS"@,
        C1::PartialLineForward => "PLD"@,
        C1::PartialLineBackward => "PLU"@,
        C1::ReverseLineFeed => "RI"@,
        C1::SingleShift2 => "SS2"@,
        C1::SingleShift3 => "SS3"@,
        C1::DeviceControlString => "DCS"@,
        C1::PrivateUser1 => "PU1"@,
        C1::PrivateUser2 => "PU2"@,
        C1::SetTransmitState => "STS"@,
        C1::CancelCharacter => "CCH"@,
        C1::MessageWaiting => "MW"@,
        C1::StartOfProtectedArea => "SPA"@,
        C1::EndOfProtectedArea => "EPA"@,
        C1::StartOfString => "SOS"@,
        C1::SingleGraphicCharacterIntroducer => "SGC"@,
        C1::SingleCharacterIntroducer => "SCI"@,
        C1::ControlSequenceIntroducer => "CSI"@,
        C1::StringTerminator => "ST"@,
        C1::OperatingSystemCommand => "OSC"@,
        C1::PrivacyMessage => "PM"@,
        C1::ApplicationProgramCommand => "APC"@,
    }
}

/// The code a byte names, or the byte itself where none does.
pub open spec fn c1_from_byte(b: u8) -> Result<C1, u8> {
    if b == 0x80 {
        Ok(C1::PaddingCharacter)
    } else if b == 0x81 {
        Ok(C1::HighOctetPreset)
    } else if b == 0x82 {
        Ok(C1::BreakPermittedHere)
    } else if b == 0x83 {
        Ok(C1::NoBreakHere)
    } else if b == 0x84 {
        Ok(C1::Index)
    } else if b == 0x85 {
        Ok(C1::NextLine)
    } else if b == 0x86 {
        Ok(C1::StartOfSelectedArea)
    } else if b == 0x87 {
        Ok(C1::EndOfSelectedArea)
    } else if b == 0x88 {
        Ok(C1::CharacterTabulationSet)
    } else if b == 0x89 {
        Ok(C1::CharacterTabulationWithJustification)
    } else if b == 0x8A {
        Ok(C1::LineTabulationSet)
    } else if b == 0x8B {
        Ok(C1::PartialLineForward)
    } else if b == 0x8C {
        Ok(C1::PartialLineBackward)
    } else if b == 0x8D {
        Ok(C1::ReverseLineFeed)
    } else if b == 0x8E {
        Ok(C1::SingleShift2)
    } else if b == 0x8F {
        Ok(C1::SingleShift3)
    } else if b == 0x90 {
        Ok(C1::DeviceControlString)
    } else if b == 0x91 {
        Ok(C1::PrivateUser1)
    } else if b == 0x92 {
        Ok(C1::PrivateUser2)
    } else if b == 0x93 {
        Ok(C1::SetTransmitState)
    } else if b == 0x94 {
        Ok(C1::CancelCharacter)
    } else if b == 0x95 {
        Ok(C1::MessageWaiting)
    } else if b == 0x96 {
        Ok(C1::StartOfProtectedArea)
    } else if b == 0x97 {
        Ok(C1::EndOfProtectedArea)
    } else if b == 0x98 {
        Ok(C1::StartOfString)
    } else if b == 0x99 {
        Ok(C1::SingleGraphicCharacterIntroducer)
    } else if b == 0x9A {
        Ok(C1::SingleCharacterIntroducer)
    } else if b == 0x9B {
        Ok(C1::ControlSequenceIntroducer)
    } else if b == 0x9C {
        Ok(C1::StringTerminator)
    } else if b == 0x9D {
        Ok(C1::OperatingSystemCommand)
    } else if b == 0x9E {
        Ok(C1::PrivacyMessage)
    } else if b == 0x9F {
        Ok(C1::ApplicationProgramCommand)
    } else {
        Err(b)
    }
}

impl C0 {
    /// The byte value of this code.
    pub fn to_byte(&self) -> (b: u8)
        ensures
            b == c0_byte(*self),
    {
        match self {
            C0::Null => 0x00,
            C0::StartOfHeading => 0x01,
            C0::StartOfText => 0x02,
            C0::EndOfText => 0x03,
            C0::EndOfTransmission => 0x04,
            C0::Enquiry => 0x05,
            C0::Acknowledge => 0x06,
            C0::Alert => 0x07,
            C0::Backspace => 0x08,
            C0::CharacterTabulation => 0x09,
            C0::LineFeed => 0x0A,
            C0::LineTabulation => 0x0B,
            C0::FormFeed => 0x0C,
            C0::CarriageReturn => 0x0D,
            C0::ShiftOut => 0x0E,
            C0::ShiftIn => 0x0F,
            C0::DataLinkEscape => 0x10,
            C0::DeviceControlOne => 0x11,
            C0::DeviceControlTwo => 0x12,
            C0::DeviceControlThree => 0x13,
            C0::DeviceControlFour => 0x14,
            C0::NegativeAcknowledge => 0x15,
            C0::SynchronousIdle => 0x16,
            C0::EndOfTransmissionBlock => 0x17,
            C0::Cancel => 0x18,
            C0::EndOfMedium => 0x19,
            C0::Substitute => 0x1A,
            C0::Escape => 0x1B,
            C0::FileSeparator => 0x1C,
            C0::GroupSeparator => 0x1D,
            C0::RecordSeparator => 0x1E,
            C0::UnitSeparator => 0x1F,
            C0::Space => 0x20,
            C0::Delete => 0x7F,
        }
    }

    /// The code a byte names; any other byte comes back as the error.
    pub fn from_byte(b: u8) -> (r: Result<C0, u8>)
        ensures
            r == c0_from_byte(b),
    {
        match b {
            0x00 => Ok(C0::Null),
            0x01 => Ok(C0::StartOfHeading),
            0x02 => Ok(C0::StartOfText),
            0x03 => Ok(C0::EndOfText),
            0x04 => Ok(C0::EndOfTransmission),
            0x05 => Ok(C0::Enquiry),
            0x06 => Ok(C0::Acknowledge),
            0x07 => Ok(C0::Alert),
            0x08 => Ok(C0::Backspace),
            0x09 => Ok(C0::CharacterTabulation),
            0x0A => Ok(C0::LineFeed),
            0x0B => Ok(C0::LineTabulation),
            0x0C => Ok(C0::FormFeed),
            0x0D => Ok(C0::CarriageReturn),
            0x0E => Ok(C0::ShiftOut),
            0x0F => Ok(C0::ShiftIn),
            0x10 => Ok(C0::DataLinkEscape),
            0x11 => Ok(C0::DeviceControlOne),
            0x12 => Ok(C0::DeviceControlTwo),
            0x13 => Ok(C0::DeviceControlThree),
            0x14 => Ok(C0::DeviceControlFour),
            0x15 => Ok(C0::NegativeAcknowledge),
            0x16 => Ok(C0::SynchronousIdle),
            0x17 => Ok(C0::EndOfTransmissionBlock),
            0x18 => Ok(C0::Cancel),
            0x19 => Ok(C0::EndOfMedium),
            0x1A => Ok(C0::Substitute),
            0x1B => Ok(C0::Escape),
            0x1C => Ok(C0::FileSeparator),
            0x1D => Ok(C0::GroupSeparator),
            0x1E => Ok(C0::RecordSeparator),
            0x1F => Ok(C0::UnitSeparator),
            0x20 => Ok(C0::Space),
            0x7F => Ok(C0::Delete),
            _ => Err(b),
        }
    }

    /// The caret notation, as a terminal shows it.
    pub fn caret_notation(&self) -> (r: &'static str)
        ensures
            r@ == c0_caret(*self),
    {
        match self {
            C0::Null => "^@",
            C0::StartOfHeading => "^A",
            C0::StartOfText => "^B",
            C0::EndOfText => "^C",
            C0::EndOfTransmission => "^D",
            C0::Enquiry => "^E",
            C0::Acknowledge => "^F",
            C0::Alert => "^G",
            C0::Backspace => "^H",
            C0::CharacterTabulation => "^I",
            C0::LineFeed => "^J",
            C0::LineTabulation => "^K",
            C0::FormFeed => "^L",
            C0::CarriageReturn => "^M",
            C0::ShiftOut => "^N",
            C0::ShiftIn => "^O",
            C0::DataLinkEscape => "^P",
            C0::DeviceControlOne => "^Q",
            C0::DeviceControlTwo => "^R",
            C0::DeviceControlThree => "^S",
            C0::DeviceControlFour => "^T",
            C0::NegativeAcknowledge => "^U",
            C0::SynchronousIdle => "^V",
            C0::EndOfTransmissionBlock => "^W",
            C0::Cancel => "^X",
            C0::EndOfMedium => "^Y",
            C0::Substitute => "^Z",
            C0::Escape => "^[",
            C0::FileSeparator => "^\\",
            C0::GroupSeparator => "^]",
            C0::RecordSeparator => "^^",
            C0::UnitSeparator => "^_",
            C0::Space => " ",
            C0::Delete => "^?",
        }
    }

    /// The short mnemonic.
    pub fn abbreviation(&self) -> (r: &'static str)
        ensures
            r@ == c0_abbreviation(*self),
    {
        match self {
            C0::Null => "NUL",
            C0::StartOfHeading => "SOH",
            C0::StartOfText => "STX",
            C0::EndOfText => "ETX",
            C0::EndOfTransmission => "EOT",
            C0::Enquiry => "ENQ",
            C0::Acknowledge => "ACK",
            C0::Alert => "BEL",
            C0::Backspace => "BS",
            C0::CharacterTabulation => "HT",
            C0::LineFeed => "LF",
            C0::LineTabulation => "VT",
            C0::FormFeed => "FF",
            C0::CarriageReturn => "CR",
            C0::ShiftOut => "SO",
            C0::ShiftIn => "SI",
            C0::DataLinkEscape => "DLE",
            C0::DeviceControlOne => "XON",
            C0::DeviceControlTwo => "TAPE",
            C0::DeviceControlThree => "XOFF",
            C0::DeviceControlFour => "TAPE",
            C0::NegativeAcknowledge => "NAK",
            C0::SynchronousIdle => "SYN",
            C0::EndOfTransmissionBlock => "ETB",
            C0::Cancel => "CAN",
            C0::EndOfMedium => "EM",
            C0::Substitute => "SUB",
            C0::Escape => "ESC",
            C0::FileSeparator => "FS",
            C0::GroupSeparator => "GS",
            C0::RecordSeparator => "RS",
            C0::UnitSeparator => "US",
            C0::Space => "SP",
            C0::Delete => "DEL",
        }
    }
}

impl C1 {
    /// The byte value of this code.
    pub fn to_byte(&self) -> (b: u8)
        ensures
            b == c1_byte(*self),
    {
        match self {
            C1::PaddingCharacter => 0x80,
            C1::HighOctetPreset => 0x81,
            C1::BreakPermittedHere => 0x82,
            C1::NoBreakHere => 0x83,
            C1::Index => 0x84,
            C1::NextLine => 0x85,
            C1::StartOfSelectedArea => 0x86,
            C1::EndOfSelectedArea => 0x87,
            C1::CharacterTabulationSet => 0x88,
            C1::CharacterTabulationWithJustification => 0x89,
            C1::LineTabulationSet => 0x8A,
            C1::PartialLineForward => 0x8B,
            C1::PartialLineBackward => 0x8C,
            C1::ReverseLineFeed => 0x8D,
            C1::SingleShift2 => 0x8E,
            C1::SingleShift3 => 0x8F,
            C1::DeviceControlString => 0x90,
            C1::PrivateUser1 => 0x91,
            C1::PrivateUser2 => 0x92,
            C1::SetTransmitState => 0x93,
            C1::CancelCharacter => 0x94,
            C1::MessageWaiting => 0x95,
            C1::StartOfProtectedArea => 0x96,
            C1::EndOfProtectedArea => 0x97,
            C1::StartOfString => 0x98,
            C1::SingleGraphicCharacterIntroducer => 0x99,
            C1::SingleCharacterIntroducer => 0x9A,
            C1::ControlSequenceIntroducer => 0x9B,
            C1::StringTerminator => 0x9C,
            C1::OperatingSystemCommand => 0x9D,
            C1::PrivacyMessage => 0x9E,
            C1::ApplicationProgramCommand => 0x9F,
        }
    }

    /// The code a byte names; any other byte comes back as the error.
    pub fn from_byte(b: u8) -> (r: Result<C1, u8>)
        ensures
            r == c1_from_byte(b),
    {
        match b {
            0x80 => Ok(C1::PaddingCharacter),
            0x81 => Ok(C1::HighOctetPreset),
            0x82 => Ok(C1::BreakPermittedHere),
            0x83 => Ok(C1::NoBreakHere),
            0x84 => Ok(C1::Index),
            0x85 => Ok(C1::NextLine),
            0x86 => Ok(C1::StartOfSelectedArea),
            0x87 => Ok(C1::EndOfSelectedArea),
            0x88 => Ok(C1::CharacterTabulationSet),
            0x89 => Ok(C1::CharacterTabulationWithJustification),
            0x8A => Ok(C1::LineTabulationSet),
            0x8B => Ok(C1::PartialLineForward),
            0x8C => Ok(C1::PartialLineBackward),
            0x8D => Ok(C1::ReverseLineFeed),
            0x8E => Ok(C1::SingleShift2),
            0x8F => Ok(C1::SingleShift3),
            0x90 => Ok(C1::DeviceControlString),
            0x91 => Ok(C1::PrivateUser1),
            0x92 => Ok(C1::PrivateUser2),
            0x93 => Ok(C1::SetTransmitState),
            0x94 => Ok(C1::CancelCharacter),
            0x95 => Ok(C1::MessageWaiting),
            0x96 => Ok(C1::StartOfProtectedArea),
            0x97 => Ok(C1::EndOfProtectedArea),
            0x98 => Ok(C1::StartOfString),
            0x99 => Ok(C1::SingleGraphicCharacterIntroducer),
            0x9A => Ok(C1::SingleCharacterIntroducer),
            0x9B => Ok(C1::ControlSequenceIntroducer),
            0x9C => Ok(C1::StringTerminator),
            0x9D => Ok(C1::OperatingSystemCommand),
            0x9E => Ok(C1::PrivacyMessage),
            0x9F => Ok(C1::ApplicationProgramCommand),
            _ => Err(b),
        }
    }

    /// The escape notation: the byte the code follows `ESC` as.
    pub fn notation(&self) -> (r: &'static str)
        ensures
            r@ == c1_notation(*self),
    {
        match self {
            C1::PaddingCharacter => "@",
            C1::HighOctetPreset => "A",
            C1::BreakPermittedHere => "B",
            C1::NoBreakHere => "C",
            C1::Index => "D",
            C1::NextLine => "E",
            C1::StartOfSelectedArea => "F",
            C1::EndOfSelectedArea => "G",
            C1::CharacterTabulationSet => "H",
            C1::CharacterTabulationWithJustification => "I",
            C1::LineTabulationSet => "J",
            C1::PartialLineForward => "K",
            C1::PartialLineBackward => "L",
            C1::ReverseLineFeed => "M",
            C1::SingleShift2 => "N",
            C1::SingleShift3 => "O",
            C1::DeviceControlString => "P",
            C1::PrivateUser1 => "Q",
            C1::PrivateUser2 => "R",
            C1::SetTransmitState => "S",
            C1::CancelCharacter => "T",
            C1::MessageWaiting => "U",
            C1::StartOfProtectedArea => "V",
            C1::EndOfProtectedArea => "W",
            C1::StartOfString => "X",
            C1::SingleGraphicCharacterIntroducer => "Y",
            C1::SingleCharacterIntroducer => "Z",
            C1::ControlSequenceIntroducer => "[",
            C1::StringTerminator => "\\",
            C1::OperatingSystemCommand => "]",
            C1::PrivacyMessage => "^",
            C1::ApplicationProgramCommand => "_",
        }
    }

    /// The short mnemonic.
    pub fn abbreviation(&self) -> (r: &'static str)
        ensures
            r@ == c1_abbreviation(*self),
    {
        match self {
            C1::PaddingCharacter => "PAD",
            C1::HighOctetPreset => "HOP",
            C1::BreakPermittedHere => "BHP",
            C1::NoBreakHere => "NBH",
            C1::Index => "IND",
            C1::NextLine => "NEL",
            C1::StartOfSelectedArea => "SSA",
            C1::EndOfSelectedArea => "ESA",
            C1::CharacterTabulationSet => "HTS",
            C1::CharacterTabulationWithJustification => "HTJ",
            C1::LineTabulationSet => "VTS",
            C1::PartialLineForward => "PLD",
            C1::PartialLineBackward => "PLU",
            C1::ReverseLineFeed => "RI",
            C1::SingleShift2 => "SS2",
            C1::SingleShift3 => "SS3",
            C1::DeviceControlString => "DCS",
            C1::PrivateUser1 => "PU1",
            C1::PrivateUser2 => "PU2",
            C1::SetTransmitState => "STS",
            C1::CancelCharacter => "CCH",
            C1::MessageWaiting => "MW",
            C1::StartOfProtectedArea => "SPA",
            C1::EndOfProtectedArea => "EPA",
            C1::StartOfString => "SOS",
            C1::SingleGraphicCharacterIntroducer => "SGC",
            C1::SingleCharacterIntroducer => "SCI",
            C1::ControlSequenceIntroducer => "CSI",
            C1::StringTerminator => "ST",
            C1::OperatingSystemCommand => "OSC",
            C1::PrivacyMessage => "PM",
            C1::ApplicationProgramCommand => "APC",
        }
    }
}

/// Every C0 code comes back from its own byte value: the table's byte
/// assignment is injective and `c0_from_byte` inverts it.
pub proof fn lemma_c0_round_trip(c: C0)
    ensures
        c0_from_byte(c0_byte(c)) == Ok::<C0, u8>(c),
{
}

/// Every C1 code comes back from its own byte value.
pub proof fn lemma_c1_round_trip(c: C1)
    ensures
        c1_from_byte(c1_byte(c)) == Ok::<C1, u8>(c),
{
}

} // verus!
