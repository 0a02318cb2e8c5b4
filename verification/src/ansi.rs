//! Command interpreter: a stateless mapping from low-level parser
//! [`Action`]s to semantic [`AnsiCommand`]s.

use vstd::prelude::*;
use crate::vt::{
    Action, ActionModel, ParserModel, VTParser, step, emitted, params_empty, parser_start,
    parser_wf,
};

verus! {

/// A terminal color as a command names it.
#[derive(Debug, Clone, Copy, PartialEq, Eq, Structural)]
pub enum Color {
    Default,
    Indexed(u8),
    RGB(u8, u8, u8),
}

/// How often blinking text blinks; `Static` is the non-blinking state.
#[derive(Debug, Clone, Copy, PartialEq, Eq, Structural)]
pub enum BlinkInterval {
    Slow,
    Rapid,
    Static,
}

/// One graphic-rendition attribute change.
#[derive(Debug, Clone, Copy, PartialEq, Eq, Structural)]
pub enum Sgr {
    Reset,
    Bold,
    Faint,
    Italic,
    Underlined(bool),
    Blink(BlinkInterval),
    Inverted(bool),
    Conceal(bool),
    CrossedOut(bool),
    PrimaryFont,
    AlternativeFont(u8),
    Fraktur,
    DoublyUnderlined,
    Regular,
    NeitherItalicNorBlackletter,
    ProportionalSpacing(bool),
    ForegroundColor(Color),
    BackgroundColor(Color),
    Framed,
    Encircled,
    Overlined(bool),
    NeitherFramedNorEncircled,
    UnderlineColor(Color),
}

/// A semantic terminal command.
#[derive(Debug, Clone, Copy, PartialEq, Eq, Structural)]
pub enum AnsiCommand {
    Print(char),
    CursorUp(u16),
    CursorDown(u16),
    CursorForward(u16),
    CursorBackward(u16),
    CursorPosition(u16, u16),
    EraseInDisplay(u8),
    EraseInLine(u8),
    Sgr(Sgr),
}

/// The first finished field of a dispatch, absent when there is none.
pub open spec fn first_param(fields: Seq<Option<i32>>) -> Option<i32> {
    if fields.len() >= 1 {
        fields[0]
    } else {
        None
    }
}

/// The second finished field of a dispatch, absent when there is none.
pub open spec fn second_param(fields: Seq<Option<i32>>) -> Option<i32> {
    if fields.len() >= 2 {
        fields[1]
    } else {
        None
    }
}

/// A cursor-movement count: absent and explicit `0` both collapse to the
/// default of `1`; larger values are truncated to the count's width.
pub open spec fn count_arg(p: Option<i32>) -> u16 {
    match p {
        Some(v) => if v <= 0 {
            1u16
        } else {
            v as u16
        },
        None => 1u16,
    }
}

/// A cursor coordinate: absent defaults to `1`.
pub open spec fn pos_arg(p: Option<i32>) -> u16 {
    match p {
        Some(v) => v as u16,
        None => 1u16,
    }
}

/// An erase mode: absent defaults to `0`.
pub open spec fn mode_arg(p: Option<i32>) -> u8 {
    match p {
        Some(v) => v as u8,
        None => 0u8,
    }
}

/// The present values of a dispatch's fields, in order; absent fields
/// carry no graphic-rendition code and are skipped.
pub open spec fn flatten_params(fields: Seq<Option<i32>>) -> Seq<i32>
    decreases fields.len(),
{
    if fields.len() == 0 {
        Seq::empty()
    } else {
        let rest = flatten_params(fields.drop_first());
        match fields[0] {
            Some(v) => seq![v] + rest,
            None => rest,
        }
    }
}

/// One graphic-rendition code that selects an attribute on its own, or
/// nothing for a code the interpreter does not recognize.
pub open spec fn sgr_single(code: i32) -> Option<Sgr> {
    if code == 0 {
        Some(Sgr::Reset)
    } else if code == 1 {
        Some(Sgr::Bold)
    } else if code == 2 {
        Some(Sgr::Faint)
    } else if code == 3 {
        Some(Sgr::Italic)
    } else if code == 4 {
        Some(Sgr::Underlined(true))
    } else if code == 5 {
        Some(Sgr::Blink(BlinkInterval::Slow))
    } else if code == 6 {
        Some(Sgr::Blink(BlinkInterval::Rapid))
    } else if code == 7 {
        Some(Sgr::Inverted(true))
    } else if code == 8 {
        Some(Sgr::Conceal(true))
    } else if code == 9 {
        Some(Sgr::CrossedOut(true))
    } else if code == 10 {
        Some(Sgr::PrimaryFont)
    } else if 11 <= code && code <= 19 {
        Some(Sgr::AlternativeFont((code - 10) as u8))
    } else if code == 20 {
        Some(Sgr::Fraktur)
    } else if code == 21 {
        Some(Sgr::DoublyUnderlined)
    } else if code == 22 {
        Some(Sgr::Regular)
    } else if code == 23 {
        Some(Sgr::NeitherItalicNorBlackletter)
    } else if code == 24 {
        Some(Sgr::Underlined(false))
    } else if code == 25 {
        Some(Sgr::Blink(BlinkInterval::Static))
    } else if code == 26 {
        Some(Sgr::ProportionalSpacing(true))
    } else if code == 27 {
        Some(Sgr::Inverted(false))
    } else if code == 28 {
        Some(Sgr::Conceal(false))
    } else if code == 29 {
        Some(Sgr::CrossedOut(false))
    } else if 30 <= code && code <= 37 {
        Some(Sgr::ForegroundColor(Color::Indexed((code - 30) as u8)))
    } else if code == 39 {
        Some(Sgr::ForegroundColor(Color::Default))
    } else if 40 <= code && code <= 47 {
        Some(Sgr::BackgroundColor(Color::Indexed((code - 40) as u8)))
    } else if code == 49 {
        Some(Sgr::BackgroundColor(Color::Default))
    } else if code == 50 {
        Some(Sgr::ProportionalSpacing(false))
    } else if code == 51 {
        Some(Sgr::Framed)
    } else if code == 52 {
        Some(Sgr::Encircled)
    } else if code == 53 {
        Some(Sgr::Overlined(true))
    } else if code == 54 {
        Some(Sgr::NeitherFramedNorEncircled)
    } else if code == 55 {
        Some(Sgr::Overlined(false))
    } else if code == 59 {
        Some(Sgr::UnderlineColor(Color::Default))
    } else {
        None
    }
}

/// An extended color directive read from the values after a `38`/`48`/`58`
/// code: the selected color, if the selector and its operands are all
/// present, and how many values the directive consumed. A malformed
/// directive selects nothing; scanning continues after what it consumed.
pub open spec fn extended_color(rest: Seq<i32>) -> (Option<Color>, int) {
    if rest.len() == 0 {
        (None::<Color>, 0int)
    } else if rest[0] == 5 {
        if rest.len() >= 2 {
            (Some(Color::Indexed(rest[1] as u8)), 2int)
        } else {
            (None::<Color>, 1int)
        }
    } else if rest[0] == 2 {
        if rest.len() >= 4 {
            (Some(Color::RGB(rest[1] as u8, rest[2] as u8, rest[3] as u8)), 4int)
        } else {
            (None::<Color>, rest.len() as int)
        }
    } else {
        (None::<Color>, 1int)
    }
}

/// The attribute an extended color code wraps its color in.
pub open spec fn wrap_color(code: i32, c: Color) -> Sgr {
    if code == 38 {
        Sgr::ForegroundColor(c)
    } else if code == 48 {
        Sgr::BackgroundColor(c)
    } else {
        Sgr::UnderlineColor(c)
    }
}

/// The attribute changes selected by a sequence of graphic-rendition codes,
/// one per recognized code, in order; unrecognized codes and malformed
/// extended-color directives are skipped.
pub open spec fn sgr_seq(vals: Seq<i32>) -> Seq<Sgr>
    decreases vals.len(),
{
    if vals.len() == 0 {
        Seq::empty()
    } else {
        let code = vals[0];
        let rest = vals.drop_first();
        if code == 38 || code == 48 || code == 58 {
            let picked = extended_color(rest);
            let tail = sgr_seq(vals.skip(1 + picked.1));
            match picked.0 {
                Some(c) => seq![wrap_color(code, c)] + tail,
                None => tail,
            }
        } else {
            match sgr_single(code) {
                Some(s) => seq![s] + sgr_seq(rest),
                None => sgr_seq(rest),
            }
        }
    }
}

/// The attribute changes of one `m` dispatch: an empty parameter list means
/// a single `Reset`; otherwise the present values are scanned in order.
pub open spec fn sgr_commands(fields: Seq<Option<i32>>) -> Seq<Sgr> {
    if fields.len() == 0 {
        seq![Sgr::Reset]
    } else {
        sgr_seq(flatten_params(fields))
    }
}

/// Each attribute change wrapped as a command, in order.
pub open spec fn sgr_cmds_of(s: Seq<Sgr>) -> Seq<AnsiCommand>
    decreases s.len(),
{
    if s.len() == 0 {
        Seq::empty()
    } else {
        seq![AnsiCommand::Sgr(s[0])] + sgr_cmds_of(s.drop_first())
    }
}

/// The commands of one control-sequence dispatch, selected by its final
/// byte; unsupported final bytes yield no command.
pub open spec fn csi_commands(byte: u8, fields: Seq<Option<i32>>) -> Seq<AnsiCommand> {
    if byte == 0x41 {
        seq![AnsiCommand::CursorUp(count_arg(first_param(fields)))]
    } else if byte == 0x42 {
        seq![AnsiCommand::CursorDown(count_arg(first_param(fields)))]
    } else if byte == 0x43 {
        seq![AnsiCommand::CursorForward(count_arg(first_param(fields)))]
    } else if byte == 0x44 {
        seq![AnsiCommand::CursorBackward(count_arg(first_param(fields)))]
    } else if byte == 0x48 || byte == 0x66 {
        seq![AnsiCommand::CursorPosition(pos_arg(first_param(fields)), pos_arg(second_param(fields)))]
    } else if byte == 0x4A {
        seq![AnsiCommand::EraseInDisplay(mode_arg(first_param(fields)))]
    } else if byte == 0x4B {
        seq![AnsiCommand::EraseInLine(mode_arg(first_param(fields)))]
    } else if byte == 0x6D {
        sgr_cmds_of(sgr_commands(fields))
    } else {
        Seq::empty()
    }
}

/// The commands one parser action maps to; actions the interpreter does not
/// recognize map to none.
pub open spec fn interpret_model(a: ActionModel) -> Seq<AnsiCommand> {
    match a {
        ActionModel::Print(c) => seq![AnsiCommand::Print(c)],
        ActionModel::CsiDispatch(byte, fields) => csi_commands(byte, fields),
        _ => Seq::empty(),
    }
}

/// The parser model and command stream after feeding a byte sequence to a
/// parser in a given model, one byte at a time.
pub open spec fn run_model(m: ParserModel, bytes: Seq<u8>) -> (ParserModel, Seq<AnsiCommand>)
    decreases bytes.len(),
{
    if bytes.len() == 0 {
        (m, Seq::<AnsiCommand>::empty())
    } else {
        let m1 = step(m, bytes[0]);
        let head = interpret_model(emitted(m, bytes[0]));
        let rec = run_model(m1, bytes.drop_first());
        (rec.0, head + rec.1)
    }
}

/// Feeding one more byte after a sequence runs the sequence, then the byte.
pub proof fn lemma_run_model_snoc(m: ParserModel, bytes: Seq<u8>, b: u8)
    ensures
        run_model(m, bytes.push(b)).0 == step(run_model(m, bytes).0, b),
        run_model(m, bytes.push(b)).1 == run_model(m, bytes).1 + interpret_model(
            emitted(run_model(m, bytes).0, b),
        ),
    decreases bytes.len(),
{
    if bytes.len() == 0 {
        reveal_with_fuel(run_model, 2);
        assert(bytes.push(b)[0] == b);
        assert(bytes.push(b).drop_first() =~= Seq::<u8>::empty());
        assert(run_model(m, bytes.push(b)).1 =~= interpret_model(emitted(m, b)));
        assert(run_model(m, bytes).1 + interpret_model(emitted(m, b)) =~= interpret_model(
            emitted(m, b),
        ));
    } else {
        assert(bytes.push(b)[0] == bytes[0]);
        assert(bytes.push(b).drop_first() =~= bytes.drop_first().push(b));
        lemma_run_model_snoc(step(m, bytes[0]), bytes.drop_first(), b);
        let head = interpret_model(emitted(m, bytes[0]));
        let mid = run_model(step(m, bytes[0]), bytes.drop_first()).1;
        let last = interpret_model(emitted(run_model(m, bytes).0, b));
        assert(head + (mid + last) =~= (head + mid) + last);
    }
}

/// Fed any byte sequence of any length, one byte at a time, a well-formed
/// parser stays well-formed: it never leaves the defined states and never
/// overruns its parameter accumulator.
pub proof fn lemma_run_preserves_wf(m: ParserModel, bytes: Seq<u8>)
    requires
        parser_wf(m),
    ensures
        parser_wf(run_model(m, bytes).0),
    decreases bytes.len(),
{
    if bytes.len() > 0 {
        crate::vt::lemma_parser_resynchronizes(m, bytes[0]);
        lemma_run_preserves_wf(step(m, bytes[0]), bytes.drop_first());
    }
}

/// Appending one field keeps the earlier present values and adds the new
/// one, when present, at the end.
proof fn lemma_flatten_snoc(s: Seq<Option<i32>>, f: Option<i32>)
    ensures
        flatten_params(s.push(f)) == flatten_params(s) + match f {
            Some(v) => seq![v],
            None => Seq::<i32>::empty(),
        },
    decreases s.len(),
{
    if s.len() == 0 {
        reveal_with_fuel(flatten_params, 2);
        assert(s.push(f)[0] == f);
        assert(s.push(f).drop_first() =~= Seq::<Option<i32>>::empty());
        match f {
            Some(v) => {
                assert(flatten_params(s.push(f)) =~= flatten_params(s) + seq![v]);
            }
            None => {
                assert(flatten_params(s.push(f)) =~= flatten_params(s));
            }
        }
    } else {
        assert(s.push(f)[0] == s[0]);
        assert(s.push(f).drop_first() =~= s.drop_first().push(f));
        lemma_flatten_snoc(s.drop_first(), f);
        match f {
            Some(v) => {
                match s[0] {
                    Some(h) => {
                        assert(seq![h] + (flatten_params(s.drop_first()) + seq![v]) =~= (
                        seq![h] + flatten_params(s.drop_first())) + seq![v]);
                    }
                    None => {}
                }
            }
            None => {}
        }
    }
}

/// Wrapping one more attribute appends one more command.
proof fn lemma_sgr_cmds_snoc(s: Seq<Sgr>, g: Sgr)
    ensures
        sgr_cmds_of(s.push(g)) == sgr_cmds_of(s) + seq![AnsiCommand::Sgr(g)],
    decreases s.len(),
{
    if s.len() == 0 {
        reveal_with_fuel(sgr_cmds_of, 2);
        assert(s.push(g)[0] == g);
        assert(s.push(g).drop_first() =~= Seq::<Sgr>::empty());
        assert(sgr_cmds_of(s.push(g)) =~= sgr_cmds_of(s) + seq![AnsiCommand::Sgr(g)]);
    } else {
        assert(s.push(g)[0] == s[0]);
        assert(s.push(g).drop_first() =~= s.drop_first().push(g));
        lemma_sgr_cmds_snoc(s.drop_first(), g);
        assert(seq![AnsiCommand::Sgr(s[0])] + (sgr_cmds_of(s.drop_first()) + seq![
            AnsiCommand::Sgr(g),
        ]) =~= (seq![AnsiCommand::Sgr(s[0])] + sgr_cmds_of(s.drop_first())) + seq![
            AnsiCommand::Sgr(g),
        ]);
    }
}

/// A cursor-movement count from its field.
fn count_arg_exec(p: Option<i32>) -> (r: u16)
    ensures
        r == count_arg(p),
{
    match p {
        Some(v) => if v <= 0 {
            1u16
        } else {
            #[verifier::truncate] (v as u16)
        },
        None => 1u16,
    }
}

/// A cursor coordinate from its field.
fn pos_arg_exec(p: Option<i32>) -> (r: u16)
    ensures
        r == pos_arg(p),
{
    match p {
        Some(v) => #[verifier::truncate] (v as u16),
        None => 1u16,
    }
}

/// An erase mode from its field.
fn mode_arg_exec(p: Option<i32>) -> (r: u8)
    ensures
        r == mode_arg(p),
{
    match p {
        Some(v) => #[verifier::truncate] (v as u8),
        None => 0u8,
    }
}

/// The attribute a single graphic-rendition code selects.
fn sgr_single_exec(code: i32) -> (r: Option<Sgr>)
    ensures
        r == sgr_single(code),
{
    match code {
        0 => Some(Sgr::Reset),
        1 => Some(Sgr::Bold),
        2 => Some(Sgr::Faint),
        3 => Some(Sgr::Italic),
        4 => Some(Sgr::Underlined(true)),
        5 => Some(Sgr::Blink(BlinkInterval::Slow)),
        6 => Some(Sgr::Blink(BlinkInterval::Rapid)),
        7 => Some(Sgr::Inverted(true)),
        8 => Some(Sgr::Conceal(true)),
        9 => Some(Sgr::CrossedOut(true)),
        10 => Some(Sgr::PrimaryFont),
        11..=19 => Some(Sgr::AlternativeFont((code - 10) as u8)),
        20 => Some(Sgr::Fraktur),
        21 => Some(Sgr::DoublyUnderlined),
        22 => Some(Sgr::Regular),
        23 => Some(Sgr::NeitherItalicNorBlackletter),
        24 => Some(Sgr::Underlined(false)),
        25 => Some(Sgr::Blink(BlinkInterval::Static)),
        26 => Some(Sgr::ProportionalSpacing(true)),
        27 => Some(Sgr::Inverted(false)),
        28 => Some(Sgr::Conceal(false)),
        29 => Some(Sgr::CrossedOut(false)),
        30..=37 => Some(Sgr::ForegroundColor(Color::Indexed((code - 30) as u8))),
        39 => Some(Sgr::ForegroundColor(Color::Default)),
        40..=47 => Some(Sgr::BackgroundColor(Color::Indexed((code - 40) as u8))),
        49 => Some(Sgr::BackgroundColor(Color::Default)),
        50 => Some(Sgr::ProportionalSpacing(false)),
        51 => Some(Sgr::Framed),
        52 => Some(Sgr::Encircled),
        53 => Some(Sgr::Overlined(true)),
        54 => Some(Sgr::NeitherFramedNorEncircled),
        55 => Some(Sgr::Overlined(false)),
        59 => Some(Sgr::UnderlineColor(Color::Default)),
        _ => None,
    }
}

/// The stateless interpreter, wrapping the escape-sequence parser it feeds.
pub struct AnsiParser {
    vt_parser: VTParser,
}

impl View for AnsiParser {
    type V = ParserModel;

    closed spec fn view(&self) -> ParserModel {
        self.vt_parser@
    }
}

impl Default for AnsiParser {
    /// An interpreter over a parser at rest.
    fn default() -> (r: Self)
        ensures
            r@ == parser_start(),
    {
        let r = AnsiParser { vt_parser: VTParser::default() };
        proof {
            assert(r@.params.fields =~= params_empty().fields);
            assert(r@.intermediates =~= Seq::<u8>::empty());
        }
        r
    }
}

impl AnsiParser {
    /// An interpreter over a parser at rest.
    pub fn new() -> (r: Self)
        ensures
            r@ == parser_start(),
    {
        Self::default()
    }

    /// Map one parser action to its semantic commands.
    pub fn interpret_action(&self, action: Action) -> (r: Vec<AnsiCommand>)
        ensures
            r@ == interpret_model(action@),
    {
        match action {
            Action::Print(c) => {
                let mut out: Vec<AnsiCommand> = Vec::new();
                out.push(AnsiCommand::Print(c));
                proof {
                    assert(out@ =~= interpret_model(action@));
                }
                out
            }
            Action::CsiDispatch(byte, params) => {
                let mut out: Vec<AnsiCommand> = Vec::new();
                if byte == 0x41 {
                    out.push(AnsiCommand::CursorUp(count_arg_exec(first_param_exec(&params))));
                } else if byte == 0x42 {
                    out.push(AnsiCommand::CursorDown(count_arg_exec(first_param_exec(&params))));
                } else if byte == 0x43 {
                    out.push(AnsiCommand::CursorForward(count_arg_exec(first_param_exec(&params))));
                } else if byte == 0x44 {
                    out.push(AnsiCommand::CursorBackward(count_arg_exec(first_param_exec(&params))));
                } else if byte == 0x48 || byte == 0x66 {
                    let row = pos_arg_exec(first_param_exec(&params));
                    let col = pos_arg_exec(second_param_exec(&params));
                    out.push(AnsiCommand::CursorPosition(row, col));
                } else if byte == 0x4A {
                    out.push(AnsiCommand::EraseInDisplay(mode_arg_exec(first_param_exec(&params))));
                } else if byte == 0x4B {
                    out.push(AnsiCommand::EraseInLine(mode_arg_exec(first_param_exec(&params))));
                } else if byte == 0x6D {
                    let sgrs = self.interpret_sgr(params.as_slice());
                    let mut k: usize = 0;
                    while k < sgrs.len()
                        invariant
                            k <= sgrs.len(),
                            sgrs@ == sgr_commands(params@),
                            out@ == sgr_cmds_of(sgrs@.take(k as int)),
                        decreases sgrs.len() - k,
                    {
                        out.push(AnsiCommand::Sgr(sgrs[k]));
                        proof {
                            assert(sgrs@.take(k + 1 as int) =~= sgrs@.take(k as int).push(
                                sgrs@[k as int],
                            ));
                            lemma_sgr_cmds_snoc(sgrs@.take(k as int), sgrs@[k as int]);
                        }
                        k = k + 1;
                    }
                    proof {
                        assert(sgrs@.take(sgrs@.len() as int) =~= sgrs@);
                    }
                }
                proof {
                    assert(out@ =~= interpret_model(action@));
                }
                out
            }
            _ => {
                let out: Vec<AnsiCommand> = Vec::new();
                proof {
                    assert(out@ =~= interpret_model(action@));
                }
                out
            }
        }
    }

    /// Walk the graphic-rendition codes of one `m` dispatch and collect one
    /// attribute change per recognized code; an empty parameter list yields
    /// a single `Reset`.
    pub fn interpret_sgr(&self, params: &[Option<i32>]) -> (r: Vec<Sgr>)
        ensures
            r@ == sgr_commands(params@),
    {
        let mut out: Vec<Sgr> = Vec::new();
        if params.len() == 0 {
            out.push(Sgr::Reset);
            proof {
                assert(out@ =~= sgr_commands(params@));
            }
            return out;
        }
        let mut vals: Vec<i32> = Vec::new();
        let mut i: usize = 0;
        while i < params.len()
            invariant
                i <= params.len(),
                vals@ == flatten_params(params@.take(i as int)),
            decreases params.len() - i,
        {
            proof {
                assert(params@.take(i + 1 as int) =~= params@.take(i as int).push(
                    params@[i as int],
                ));
                lemma_flatten_snoc(params@.take(i as int), params@[i as int]);
            }
            match params[i] {
                Some(v) => {
                    vals.push(v);
                    proof {
                        assert(vals@ =~= flatten_params(params@.take(i + 1 as int)));
                    }
                }
                None => {
                    proof {
                        assert(vals@ =~= flatten_params(params@.take(i + 1 as int)));
                    }
                }
            }
            i = i + 1;
        }
        proof {
            assert(params@.take(params@.len() as int) =~= params@);
        }
        proof {
            assert(vals@.skip(0int) =~= vals@);
            assert(out@ + sgr_seq(vals@) =~= sgr_seq(vals@));
        }
        let mut idx: usize = 0;
        while idx < vals.len()
            invariant
                idx <= vals.len(),
                vals@ == flatten_params(params@),
                params@.len() > 0,
                out@ + sgr_seq(vals@.skip(idx as int)) == sgr_seq(vals@),
            decreases vals.len() - idx,
        {
            let ghost pending = vals@.skip(idx as int);
            proof {
                assert(pending[0] == vals@[idx as int]);
            }
            let code = vals[idx];
            if code == 38 || code == 48 || code == 58 {
                let ghost rest = pending.drop_first();
                let ghost picked = extended_color(rest);
                proof {
                    assert(rest =~= vals@.skip(idx + 1 as int));
                }
                let remaining: usize = vals.len() - idx - 1;
                if remaining == 0 {
                    proof {
                        assert(pending.skip(1int) =~= vals@.skip(idx + 1 as int));
                    }
                    idx = idx + 1;
                } else {
                    let sel = vals[idx + 1];
                    proof {
                        assert(rest[0] == vals@[idx + 1 as int]);
                    }
                    if sel == 5 {
                        if remaining >= 2 {
                            let index = #[verifier::truncate] (vals[idx + 2] as u8);
                            let wrapped = wrap_color_exec(code, Color::Indexed(index));
                            out.push(wrapped);
                            proof {
                                assert(rest[1] == vals@[idx + 2 as int]);
                                assert(pending.skip(3int) =~= vals@.skip(idx + 3 as int));
                            }
                            idx = idx + 3;
                        } else {
                            proof {
                                assert(pending.skip(2int) =~= vals@.skip(idx + 2 as int));
                            }
                            idx = idx + 2;
                        }
                    } else if sel == 2 {
                        if remaining >= 4 {
                            let cr = #[verifier::truncate] (vals[idx + 2] as u8);
                            let cg = #[verifier::truncate] (vals[idx + 3] as u8);
                            let cb = #[verifier::truncate] (vals[idx + 4] as u8);
                            let wrapped = wrap_color_exec(code, Color::RGB(cr, cg, cb));
                            out.push(wrapped);
                            proof {
                                assert(rest[1] == vals@[idx + 2 as int]);
                                assert(rest[2] == vals@[idx + 3 as int]);
                                assert(rest[3] == vals@[idx + 4 as int]);
                                assert(pending.skip(5int) =~= vals@.skip(idx + 5 as int));
                            }
                            idx = idx + 5;
                        } else {
                            proof {
                                assert(pending.skip(1 + picked.1) =~= vals@.skip(
                                    vals@.len() as int,
                                ));
                                assert(vals@.skip(vals@.len() as int) =~= Seq::<i32>::empty());
                            }
                            idx = vals.len();
                        }
                    } else {
                        proof {
                            assert(pending.skip(2int) =~= vals@.skip(idx + 2 as int));
                        }
                        idx = idx + 2;
                    }
                }
            } else {
                match sgr_single_exec(code) {
                    Some(s) => {
                        out.push(s);
                    }
                    None => {}
                }
                proof {
                    assert(pending.drop_first() =~= vals@.skip(idx + 1 as int));
                }
                idx = idx + 1;
            }
        }
        proof {
            assert(vals@.skip(vals@.len() as int) =~= Seq::<i32>::empty());
            assert(out@ + Seq::<Sgr>::empty() =~= out@);
        }
        out
    }

    /// Feed a byte slice to the parser one byte at a time and collect the
    /// commands of all the actions it emits, in order.
    pub fn parse(&mut self, data: &[u8]) -> (r: Vec<AnsiCommand>)
        ensures
            final(self)@ == run_model(old(self)@, data@).0,
            r@ == run_model(old(self)@, data@).1,
    {
        let mut out: Vec<AnsiCommand> = Vec::new();
        let mut i: usize = 0;
        while i < data.len()
            invariant
                i <= data.len(),
                self@ == run_model(old(self)@, data@.take(i as int)).0,
                out@ == run_model(old(self)@, data@.take(i as int)).1,
            decreases data.len() - i,
        {
            let byte = data[i];
            let action = self.vt_parser.parse_byte(byte);
            let mut cmds = self.interpret_action(action);
            out.append(&mut cmds);
            proof {
                assert(data@.take(i + 1 as int) =~= data@.take(i as int).push(data@[i as int]));
                lemma_run_model_snoc(old(self)@, data@.take(i as int), byte);
            }
            i = i + 1;
        }
        proof {
            assert(data@.take(data@.len() as int) =~= data@);
        }
        out
    }
}

/// The first finished field of a dispatch's parameter vector.
fn first_param_exec(params: &Vec<Option<i32>>) -> (r: Option<i32>)
    ensures
        r == first_param(params@),
{
    if params.len() >= 1 {
        params[0]
    } else {
        None
    }
}

/// The second finished field of a dispatch's parameter vector.
fn second_param_exec(params: &Vec<Option<i32>>) -> (r: Option<i32>)
    ensures
        r == second_param(params@),
{
    if params.len() >= 2 {
        params[1]
    } else {
        None
    }
}

/// The attribute an extended color code wraps its color in.
fn wrap_color_exec(code: i32, c: Color) -> (r: Sgr)
    ensures
        r == wrap_color(code, c),
{
    if code == 38 {
        Sgr::ForegroundColor(c)
    } else if code == 48 {
        Sgr::BackgroundColor(c)
    } else {
        Sgr::UnderlineColor(c)
    }
}

} // verus!

