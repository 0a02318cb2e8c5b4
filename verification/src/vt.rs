//! Byte-at-a-time escape-sequence parser: a finite-state machine turning raw
//! input bytes into low-level [`Action`]s.

use vstd::prelude::*;

verus! {

/// Hard ceiling on the number of parameter fields one control sequence keeps;
/// fields beyond it are accepted syntactically and silently dropped.
pub const MAX_PARAMS: usize = 16;

/// The states of the escape-sequence state machine.
///
/// `CsiIntermediate`, `CsiIgnore` and `OscString` are reserved for
/// device-control and operating-system-command strings; no transition reaches
/// them yet.
#[derive(Debug, Clone, Copy, PartialEq, Eq, Structural)]
pub enum State {
    Ground,
    Escape,
    EscapeIntermediate,
    CsiEntry,
    CsiParam,
    CsiIntermediate,
    CsiIgnore,
    OscString,
}

/// A low-level parser action, produced for each input byte and never stored.
///
/// `Hook`, `Put`, `Unhook`, `OscStart`, `OscPut`, `OscEnd`, `Clear` and
/// `CollectParam` are reserved for protocol surface the state machine does
/// not reach yet. `Nothing` is the no-op sentinel for "no action this byte".
#[derive(Debug, PartialEq)]
pub enum Action {
    Print(char),
    Execute(u8),
    Clear,
    CollectParam(u8),
    Hook(Vec<i32>, Vec<u8>),
    Put(u8),
    Unhook,
    OscStart,
    OscPut(u8),
    OscEnd,
    CsiDispatch(u8, Vec<Option<i32>>),
    EscDispatch(u8),
    Nothing,
}

/// The mathematical value of an [`Action`], with sequences for the vectors.
pub enum ActionModel {
    Print(char),
    Execute(u8),
    Clear,
    CollectParam(u8),
    Hook(Seq<i32>, Seq<u8>),
    Put(u8),
    Unhook,
    OscStart,
    OscPut(u8),
    OscEnd,
    CsiDispatch(u8, Seq<Option<i32>>),
    EscDispatch(u8),
    Nothing,
}

impl View for Action {
    type V = ActionModel;

    open spec fn view(&self) -> ActionModel {
        match self {
            Action::Print(c) => ActionModel::Print(*c),
            Action::Execute(b) => ActionModel::Execute(*b),
            Action::Clear => ActionModel::Clear,
            Action::CollectParam(b) => ActionModel::CollectParam(*b),
            Action::Hook(p, i) => ActionModel::Hook(p@, i@),
            Action::Put(b) => ActionModel::Put(*b),
            Action::Unhook => ActionModel::Unhook,
            Action::OscStart => ActionModel::OscStart,
            Action::OscPut(b) => ActionModel::OscPut(*b),
            Action::OscEnd => ActionModel::OscEnd,
            Action::CsiDispatch(b, p) => ActionModel::CsiDispatch(*b, p@),
            Action::EscDispatch(b) => ActionModel::EscDispatch(*b),
            Action::Nothing => ActionModel::Nothing,
        }
    }
}

/// The mathematical value of a [`Params`] accumulator: the finished fields
/// and the field under construction (`None` while no digit has been seen).
pub struct ParamsModel {
    pub fields: Seq<Option<i32>>,
    pub current: Option<i32>,
}

/// A finished field is the parsed decimal value or "absent"; parsed values
/// are never negative.
pub open spec fn field_wf(f: Option<i32>) -> bool {
    f matches Some(v) ==> v >= 0
}

/// Well-formedness of a parameter accumulator: at most [`MAX_PARAMS`] fields,
/// none of them negative.
pub open spec fn params_model_wf(m: ParamsModel) -> bool {
    &&& m.fields.len() <= MAX_PARAMS
    &&& forall|i: int| 0 <= i < m.fields.len() ==> field_wf(#[trigger] m.fields[i])
    &&& field_wf(m.current)
}

/// One decimal digit appended to the field under construction; the value
/// saturates instead of overflowing.
pub open spec fn accumulate(current: Option<i32>, digit: u8) -> i32 {
    let prev = match current {
        Some(v) => v as int,
        None => 0,
    };
    let next = prev * 10 + (digit - 0x30);
    if next > i32::MAX {
        i32::MAX
    } else {
        next as i32
    }
}

/// The accumulator after the current field is finished: the field is pushed
/// if there is room, dropped otherwise, and construction starts over.
pub open spec fn params_finished(m: ParamsModel) -> ParamsModel {
    ParamsModel {
        fields: if m.fields.len() < MAX_PARAMS {
            m.fields.push(m.current)
        } else {
            m.fields
        },
        current: None,
    }
}

/// An ordered, fixed-capacity sequence of optional integer parameters, built
/// incrementally across the bytes of one escape sequence.
pub struct Params {
    data: Vec<Option<i32>>,
    current: Option<i32>,
}

impl View for Params {
    type V = ParamsModel;

    closed spec fn view(&self) -> ParamsModel {
        ParamsModel { fields: self.data@, current: self.current }
    }
}

impl Params {
    #[verifier::type_invariant]
    spec fn inv(self) -> bool {
        params_model_wf(self@)
    }

    /// Accumulate one decimal digit into the field under construction.
    pub fn push_digit(&mut self, digit: u8)
        requires
            0x30 <= digit <= 0x39,
        ensures
            final(self)@.fields == old(self)@.fields,
            final(self)@.current == Some(accumulate(old(self)@.current, digit)),
    {
        proof {
            use_type_invariant(&*self);
        }
        let prev: i32 = match self.current {
            Some(v) => v,
            None => 0,
        };
        let wide: i64 = prev as i64 * 10 + (digit - 0x30) as i64;
        let value: i32 = if wide > i32::MAX as i64 {
            i32::MAX
        } else {
            wide as i32
        };
        self.current = Some(value);
    }

    /// Finish the field under construction, recording "absent" when no digit
    /// was seen; past the capacity the field is silently dropped.
    pub fn finish_param(&mut self)
        ensures
            final(self)@ == params_finished(old(self)@),
    {
        proof {
            use_type_invariant(&*self);
        }
        let mut data: Vec<Option<i32>> = Vec::new();
        core::mem::swap(&mut data, &mut self.data);
        if data.len() < MAX_PARAMS {
            data.push(self.current);
        }
        core::mem::swap(&mut data, &mut self.data);
        self.current = None;
    }

    /// The finished fields, as a vector of their own.
    pub fn as_vec(&self) -> (v: Vec<Option<i32>>)
        ensures
            v@ == self@.fields,
    {
        let mut v: Vec<Option<i32>> = Vec::new();
        let mut i: usize = 0;
        while i < self.data.len()
            invariant
                i <= self.data.len(),
                v@ == self.data@.take(i as int),
            decreases self.data.len() - i,
        {
            v.push(self.data[i]);
            proof {
                assert(v@ =~= self.data@.take(i + 1 as int));
            }
            i = i + 1;
        }
        proof {
            assert(v@ =~= self.data@);
        }
        v
    }
}

impl Default for Params {
    /// An empty accumulator: no finished fields, no digits seen.
    fn default() -> (r: Self)
        ensures
            r@.fields == Seq::<Option<i32>>::empty(),
            r@.current is None,
    {
        Params { data: Vec::new(), current: None }
    }
}

/// The mathematical value of a [`VTParser`].
pub struct ParserModel {
    pub state: State,
    pub params: ParamsModel,
    pub intermediates: Seq<u8>,
}

/// Well-formedness of the whole parser: its accumulator is well-formed.
pub open spec fn parser_wf(m: ParserModel) -> bool {
    params_model_wf(m.params)
}

/// An empty accumulator.
pub open spec fn params_empty() -> ParamsModel {
    ParamsModel { fields: Seq::empty(), current: None }
}

/// A parser at rest: `Ground` state, empty accumulator, no intermediates.
pub open spec fn parser_start() -> ParserModel {
    ParserModel { state: State::Ground, params: params_empty(), intermediates: Seq::empty() }
}

/// The state machine's transition function: the parser after one input byte.
///
/// Any (state, byte) pair outside the table resynchronizes to `Ground`
/// without touching the accumulator: malformed or unsupported sequences are
/// swallowed, never an error.
pub open spec fn step(m: ParserModel, byte: u8) -> ParserModel {
    match m.state {
        State::Ground => {
            if byte == 0x1B {
                ParserModel { state: State::Escape, params: m.params, intermediates: m.intermediates }
            } else {
                m
            }
        }
        State::Escape => {
            if byte == 0x5B {
                ParserModel { state: State::CsiEntry, params: params_empty(), intermediates: m.intermediates }
            } else if 0x20 <= byte && byte <= 0x2F {
                ParserModel {
                    state: State::EscapeIntermediate,
                    params: m.params,
                    intermediates: m.intermediates.push(byte),
                }
            } else {
                ParserModel { state: State::Ground, params: m.params, intermediates: m.intermediates }
            }
        }
        State::CsiEntry | State::CsiParam => {
            if 0x30 <= byte && byte <= 0x39 {
                ParserModel {
                    state: State::CsiParam,
                    params: ParamsModel {
                        fields: m.params.fields,
                        current: Some(accumulate(m.params.current, byte)),
                    },
                    intermediates: m.intermediates,
                }
            } else if byte == 0x3B {
                ParserModel {
                    state: State::CsiParam,
                    params: params_finished(m.params),
                    intermediates: m.intermediates,
                }
            } else if 0x40 <= byte && byte <= 0x7E {
                ParserModel {
                    state: State::Ground,
                    params: if m.state is CsiParam {
                        params_finished(m.params)
                    } else {
                        m.params
                    },
                    intermediates: m.intermediates,
                }
            } else {
                ParserModel { state: State::Ground, params: m.params, intermediates: m.intermediates }
            }
        }
        _ => ParserModel { state: State::Ground, params: m.params, intermediates: m.intermediates },
    }
}

/// The action the parser emits for one input byte in a given state.
pub open spec fn emitted(m: ParserModel, byte: u8) -> ActionModel {
    match m.state {
        State::Ground => {
            if byte == 0x1B {
                ActionModel::Nothing
            } else if 0x20 <= byte && byte <= 0x7F {
                ActionModel::Print(byte as char)
            } else if byte <= 0x1F {
                ActionModel::Execute(byte)
            } else {
                ActionModel::Nothing
            }
        }
        State::Escape => {
            if byte == 0x5B || (0x20 <= byte && byte <= 0x2F) {
                ActionModel::Nothing
            } else if 0x30 <= byte && byte <= 0x7E {
                ActionModel::EscDispatch(byte)
            } else {
                ActionModel::Nothing
            }
        }
        State::CsiEntry => {
            if 0x40 <= byte && byte <= 0x7E {
                ActionModel::CsiDispatch(byte, m.params.fields)
            } else {
                ActionModel::Nothing
            }
        }
        State::CsiParam => {
            if (0x30 <= byte && byte <= 0x39) || byte == 0x3B {
                ActionModel::Nothing
            } else if 0x40 <= byte && byte <= 0x7E {
                ActionModel::CsiDispatch(byte, params_finished(m.params).fields)
            } else {
                ActionModel::Nothing
            }
        }
        _ => ActionModel::Nothing,
    }
}

/// The (state, byte) pairs that keep the machine inside a sequence; after
/// every other byte it stands in `Ground`.
pub open spec fn continues(s: State, byte: u8) -> bool {
    match s {
        State::Ground => byte == 0x1B,
        State::Escape => byte == 0x5B || (0x20 <= byte && byte <= 0x2F),
        State::CsiEntry | State::CsiParam => (0x30 <= byte && byte <= 0x39) || byte == 0x3B,
        _ => false,
    }
}

/// Fed any byte in any state, the parser lands in a well-formed state, and a
/// byte that no transition of the current state accepts resynchronizes it to
/// `Ground`: no input desynchronizes the machine.
pub proof fn lemma_parser_resynchronizes(m: ParserModel, byte: u8)
    requires
        parser_wf(m),
    ensures
        parser_wf(step(m, byte)),
        !continues(m.state, byte) ==> step(m, byte).state == State::Ground,
{
}

/// The escape-sequence parser: a current state and the parameter accumulator
/// of the control sequence under construction.
pub struct VTParser {
    state: State,
    params: Params,
    intermediates: Vec<u8>,
}

impl View for VTParser {
    type V = ParserModel;

    closed spec fn view(&self) -> ParserModel {
        ParserModel { state: self.state, params: self.params@, intermediates: self.intermediates@ }
    }
}

impl Default for VTParser {
    /// A parser at rest: `Ground` state, empty accumulator.
    fn default() -> (r: Self)
        ensures
            r@.state == State::Ground,
            r@.params == params_empty(),
            r@.intermediates == Seq::<u8>::empty(),
    {
        let r = VTParser { state: State::Ground, params: Params::default(), intermediates: Vec::new() };
        proof {
            assert(r@.params.fields =~= params_empty().fields);
        }
        r
    }
}

impl VTParser {
    /// Advance the state machine by one input byte and return the action it
    /// emits for that byte.
    pub fn parse_byte(&mut self, byte: u8) -> (action: Action)
        ensures
            final(self)@ == step(old(self)@, byte),
            action@ == emitted(old(self)@, byte),
    {
        match self.state {
            State::Ground => {
                if byte == 0x1B {
                    self.state = State::Escape;
                    Action::Nothing
                } else if 0x20 <= byte && byte <= 0x7F {
                    Action::Print(byte as char)
                } else if byte <= 0x1F {
                    Action::Execute(byte)
                } else {
                    Action::Nothing
                }
            }
            State::Escape => {
                if byte == 0x5B {
                    self.state = State::CsiEntry;
                    self.params = Params::default();
                    proof {
                        assert(self@.params.fields =~= params_empty().fields);
                    }
                    Action::Nothing
                } else if 0x20 <= byte && byte <= 0x2F {
                    self.state = State::EscapeIntermediate;
                    self.intermediates.push(byte);
                    Action::Nothing
                } else if 0x30 <= byte && byte <= 0x7E {
                    self.state = State::Ground;
                    Action::EscDispatch(byte)
                } else {
                    self.state = State::Ground;
                    Action::Nothing
                }
            }
            State::CsiEntry => {
                if 0x30 <= byte && byte <= 0x39 {
                    self.state = State::CsiParam;
                    self.params.push_digit(byte);
                    Action::Nothing
                } else if byte == 0x3B {
                    self.state = State::CsiParam;
                    self.params.finish_param();
                    Action::Nothing
                } else if 0x40 <= byte && byte <= 0x7E {
                    let fields = self.params.as_vec();
                    self.state = State::Ground;
                    Action::CsiDispatch(byte, fields)
                } else {
                    self.state = State::Ground;
                    Action::Nothing
                }
            }
            State::CsiParam => {
                if 0x30 <= byte && byte <= 0x39 {
                    self.params.push_digit(byte);
                    Action::Nothing
                } else if byte == 0x3B {
                    self.params.finish_param();
                    Action::Nothing
                } else if 0x40 <= byte && byte <= 0x7E {
                    self.params.finish_param();
                    let fields = self.params.as_vec();
                    self.state = State::Ground;
                    Action::CsiDispatch(byte, fields)
                } else {
                    self.state = State::Ground;
                    Action::Nothing
                }
            }
            _ => {
                self.state = State::Ground;
                Action::Nothing
            }
        }
    }
}

} // verus!
