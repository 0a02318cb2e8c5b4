use ttyrant::session::{reader_step, ReadEvent, ReaderStep};

#[test]
fn reader_decisions() {
    assert_eq!(reader_step(ReadEvent::EndOfInput), ReaderStep::Stop);
    assert_eq!(reader_step(ReadEvent::Failed), ReaderStep::Stop);
    assert_eq!(reader_step(ReadEvent::Interrupted), ReaderStep::Continue);
}

#[test]
fn reader_decodes_chunk() {
    let step = reader_step(ReadEvent::Data(b"hi".to_vec()));
    assert_eq!(step, ReaderStep::Forward(String::from("hi")));

    // Multi-byte characters decode too.
    let step = reader_step(ReadEvent::Data("héllo".as_bytes().to_vec()));
    assert_eq!(step, ReaderStep::Forward(String::from("héllo")));
}

#[test]
fn reader_drops_undecodable() {
    // A chunk that is not valid UTF-8 is dropped and reading continues.
    let step = reader_step(ReadEvent::Data(vec![0xFF, 0xFE]));
    assert_eq!(step, ReaderStep::Continue);

    // A multi-byte character split at a read boundary makes the chunk
    // undecodable on its own.
    let bytes = "é".as_bytes();
    let step = reader_step(ReadEvent::Data(bytes[..1].to_vec()));
    assert_eq!(step, ReaderStep::Continue);
}
