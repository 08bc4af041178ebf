//! Untyped wire arguments and typed extraction of scalars from them.
use vstd::prelude::*;
use vstd::string::StringSliceAdditionalSpecFns;
use vstd::utf8::encode_utf8_decode_utf8;

verus! {

/// Bit pattern of an IEEE-754 single-precision value, exactly as it was received.
pub type FloatBits = u32;

/// The wire type of one argument, as far as decoding cares.
#[derive(Clone, Copy, Debug, PartialEq, Eq, Structural)]
pub enum WireKind {
    Int,
    Float,
    Other,
}

/// One argument of a wire message.
#[derive(Clone, Copy, Debug, PartialEq, Eq, Structural)]
pub enum WireValue {
    Int(i32),
    Float(FloatBits),
    /// Any other wire type (string, blob, double, ...); decoding never reads one.
    Other,
}

impl WireValue {
    pub open spec fn kind(self) -> WireKind {
        match self {
            WireValue::Int(_) => WireKind::Int,
            WireValue::Float(_) => WireKind::Float,
            WireValue::Other => WireKind::Other,
        }
    }

    /// The payload of a float argument (zero for any other kind).
    pub open spec fn float_bits(self) -> FloatBits {
        match self {
            WireValue::Float(b) => b,
            _ => 0,
        }
    }

    /// The payload of an integer argument (zero for any other kind).
    pub open spec fn int_value(self) -> i32 {
        match self {
            WireValue::Int(v) => v,
            _ => 0,
        }
    }
}

/// One message after transport decoding: an address and its argument list.
#[derive(Debug)]
pub struct WireMessage {
    pub addr: String,
    pub args: Vec<WireValue>,
}

/// A per-message decoding failure. None of them is fatal: the message is dropped.
#[derive(Debug)]
pub enum DecodeError {
    /// The address is not in the routing table.
    UnknownAddress(String),
    /// The argument list ends before position `index`.
    MissingArgument { index: usize },
    /// The argument at `index` is not of the `expected` wire type.
    TypeMismatch { index: usize, expected: WireKind },
}

/// The mathematical meaning of a `DecodeError`.
pub enum DecodeFault {
    UnknownAddress(Seq<char>),
    MissingArgument(nat),
    TypeMismatch(nat, WireKind),
}

impl View for DecodeError {
    type V = DecodeFault;

    open spec fn view(&self) -> DecodeFault {
        match self {
            DecodeError::UnknownAddress(a) => DecodeFault::UnknownAddress(a@),
            DecodeError::MissingArgument { index } => DecodeFault::MissingArgument(*index as nat),
            DecodeError::TypeMismatch { index, expected } => DecodeFault::TypeMismatch(
                *index as nat,
                *expected,
            ),
        }
    }
}

/// A result with its error replaced by the error's meaning.
pub open spec fn result_view<T>(r: Result<T, DecodeError>) -> Result<T, DecodeFault> {
    match r {
        Ok(v) => Ok(v),
        Err(e) => Err(e@),
    }
}

/// What is wrong with position `i` of `args` when a value of kind `expected` is wanted.
pub open spec fn slot_fault(args: Seq<WireValue>, i: nat, expected: WireKind) -> Option<
    DecodeFault,
> {
    if i >= args.len() {
        Some(DecodeFault::MissingArgument(i))
    } else if args[i as int].kind() != expected {
        Some(DecodeFault::TypeMismatch(i, expected))
    } else {
        None
    }
}

/// The float at position `i`, or why there is none.
pub open spec fn float_arg(args: Seq<WireValue>, i: nat) -> Result<FloatBits, DecodeFault> {
    match slot_fault(args, i, WireKind::Float) {
        Some(f) => Err(f),
        None => Ok(args[i as int].float_bits()),
    }
}

/// The integer at position `i`, or why there is none.
pub open spec fn int_arg(args: Seq<WireValue>, i: nat) -> Result<i32, DecodeFault> {
    match slot_fault(args, i, WireKind::Int) {
        Some(f) => Err(f),
        None => Ok(args[i as int].int_value()),
    }
}

/// Reads the float argument at position `i`.
pub fn get_float_from_args(i: usize, args: &Vec<WireValue>) -> (r: Result<FloatBits, DecodeError>)
    ensures
        result_view(r) == float_arg(args@, i as nat),
{
    if i >= args.len() {
        return Err(DecodeError::MissingArgument { index: i });
    }
    match args[i] {
        WireValue::Float(value) => Ok(value),
        _ => Err(DecodeError::TypeMismatch { index: i, expected: WireKind::Float }),
    }
}

/// Reads the integer argument at position `i`.
pub fn get_int_from_args(i: usize, args: &Vec<WireValue>) -> (r: Result<i32, DecodeError>)
    ensures
        result_view(r) == int_arg(args@, i as nat),
{
    if i >= args.len() {
        return Err(DecodeError::MissingArgument { index: i });
    }
    match args[i] {
        WireValue::Int(value) => Ok(value),
        _ => Err(DecodeError::TypeMismatch { index: i, expected: WireKind::Int }),
    }
}

/// Whether two texts hold the same characters, compared byte by byte.
pub fn same_text(a: &str, b: &str) -> (r: bool)
    ensures
        r == (a@ == b@),
{
    let x = a.as_bytes();
    let y = b.as_bytes();
    proof {
        encode_utf8_decode_utf8(a@);
        encode_utf8_decode_utf8(b@);
    }
    if x.len() != y.len() {
        return false;
    }
    let mut i: usize = 0;
    while i < x.len()
        invariant
            x@ == a.spec_bytes(),
            y@ == b.spec_bytes(),
            x@.len() == y@.len(),
            i <= x@.len(),
            forall|j: int| 0 <= j < i ==> x@[j] == y@[j],
        decreases x@.len() - i,
    {
        if x[i] != y[i] {
            return false;
        }
        i = i + 1;
    }
    assert(x@ =~= y@);
    true
}

} // verus!
