use ttyrant::cell::{Buffer, Cell, CellAttributes, Color, Line};

#[test]
fn write_single_char_to_cell() {
    let mut buffer = Buffer::new(10, 10);
    buffer.write_str(0, 0, "C", CellAttributes::default());
    let char = buffer.get(0, 0).ch;

    assert_eq!(char, 'C');
}

#[test]
fn write_string_to_cells() {
    let mut buffer = Buffer::new(10, 10);
    buffer.write_str(0, 0, "CCC", CellAttributes::default());
    let char1 = buffer.get(0, 0).ch;
    let char2 = buffer.get(1, 0).ch;
    let char3 = buffer.get(2, 0).ch;

    assert_eq!(char1, 'C');
    assert_eq!(char2, 'C');
    assert_eq!(char3, 'C');
}

#[test]
fn fresh_buffer_defaults() {
    // Every coordinate of a fresh buffer shows the default cell, including
    // out-of-range coordinates.
    let buffer = Buffer::new(4, 3);
    let default = Cell::default();
    for y in 0..5 {
        for x in 0..7 {
            assert_eq!(buffer.get(x, y), default);
        }
    }
    assert_eq!(buffer.get(10_000, 10_000), default);
}

#[test]
fn default_write_removes() {
    // Writing a cell and then writing the default back removes the column
    // from both storage tiers.
    let mut line = Line::new(10);
    line.set(3, Cell::new('A', CellAttributes::default()));
    assert_eq!(line.get(3).ch, 'A');
    assert_eq!(line.stored_cells(), (1, 0));

    line.set(3, Cell::default());
    assert_eq!(line.get(3), Cell::default());
    assert_eq!(line.stored_cells(), (0, 0));
}

#[test]
fn noop_writes_keep_storage() {
    // Storage after many identical writes equals storage after one write.
    let mut line = Line::new(100);
    let cell = Cell::new('Z', CellAttributes::default());
    line.set(7, cell);
    let sizes = line.stored_cells();
    for _ in 0..100 {
        line.set(7, cell);
    }
    assert_eq!(line.stored_cells(), sizes);
    assert_eq!(line.get(7).ch, 'Z');
}

#[test]
fn inline_overflow_spill() {
    // The ninth distinct column of a row spills into the overflow tier; the
    // cells still read back, and removing them empties both tiers.
    let mut line = Line::new(100);
    for i in 0..12 {
        line.set(i as u16, Cell::new((b'a' + i) as char, CellAttributes::default()));
    }
    assert_eq!(line.stored_cells(), (8, 4));
    for i in 0..12 {
        assert_eq!(line.get(i as u16).ch, (b'a' + i) as char);
    }
    for i in 0..12 {
        line.set(i as u16, Cell::default());
    }
    assert_eq!(line.stored_cells(), (0, 0));
}

#[test]
fn out_of_range_writes_ignored() {
    let mut buffer = Buffer::new(4, 2);
    buffer.write_str(0, 5, "xyz", CellAttributes::default());
    buffer.write_str(2, 0, "abcdef", CellAttributes::default());
    assert_eq!(buffer.get(0, 5), Cell::default());
    assert_eq!(buffer.get(2, 0).ch, 'a');
    assert_eq!(buffer.get(3, 0).ch, 'b');
    // Whatever falls past the width is clipped.
    assert_eq!(buffer.get(4, 0), Cell::default());
}

#[test]
fn buffer_set_and_remove() {
    let mut buffer = Buffer::new(8, 8);
    buffer.set(1, 1, Cell::new('Q', CellAttributes::default()));
    assert_eq!(buffer.get(1, 1).ch, 'Q');
    buffer.set(1, 1, Cell::default());
    assert_eq!(buffer.get(1, 1), Cell::default());
}

#[test]
fn color_packing_rgb() {
    let c = Color::rgb(1, 12, 123);
    assert_eq!(c.r(), 1);
    assert_eq!(c.g(), 12);
    assert_eq!(c.b(), 123);
    assert!(!c.is_indexed());
    assert_eq!(c.index(), None);
    assert_eq!(c.0, 0x01_0C_7B);
}

#[test]
fn color_packing_indexed() {
    let c = Color::indexed(5);
    assert!(c.is_indexed());
    assert_eq!(c.index(), Some(5));
    assert_eq!(c.0, 0x8000_0005);
}

#[test]
fn cell_default_shape() {
    let d = Cell::default();
    assert_eq!(d.ch, ' ');
    assert_eq!(d.fg, Color::indexed(0));
    assert_eq!(d.bg, Color::indexed(0));
    assert!(d.is_default());
    assert!(!Cell::new('x', CellAttributes::default()).is_default());
    // A freshly written space with default attributes is the default cell.
    assert!(Cell::new(' ', CellAttributes::default()).is_default());
}
