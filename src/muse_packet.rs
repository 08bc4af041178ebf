//! Decoding of headset messages into typed events.
use crate::wire::{
    get_float_from_args, get_int_from_args, result_view, same_text, slot_fault, DecodeError,
    DecodeFault, FloatBits, WireKind, WireMessage, WireValue,
};
use vstd::math::abs;
use vstd::prelude::*;
use vstd::string::StringExecFns;

verus! {

/// Network address of the device that sent a message.
#[derive(Clone, Copy, Debug, PartialEq, Eq, Structural)]
pub enum IpAddress {
    V4(u32),
    V6(u128),
}

/// Network address and port of the device that sent a message.
#[derive(Clone, Copy, Debug, PartialEq, Eq, Structural)]
pub struct SourceAddr {
    pub ip: IpAddress,
    pub port: u16,
}

/// One decoded measurement. Float payloads are kept as the bit patterns received.
#[derive(Clone, Copy, Debug, PartialEq, Eq, Structural)]
pub enum MuseMessageType {
    /// Raw electrode voltages in microvolts, channels TP9, AF7, AF8, TP10.
    Eeg { a: FloatBits, b: FloatBits, c: FloatBits, d: FloatBits },
    Accelerometer { x: FloatBits, y: FloatBits, z: FloatBits },
    Gyro { x: FloatBits, y: FloatBits, z: FloatBits },
    Alpha { a: FloatBits, b: FloatBits, c: FloatBits, d: FloatBits },
    Beta { a: FloatBits, b: FloatBits, c: FloatBits, d: FloatBits },
    Gamma { a: FloatBits, b: FloatBits, c: FloatBits, d: FloatBits },
    Delta { a: FloatBits, b: FloatBits, c: FloatBits, d: FloatBits },
    Theta { a: FloatBits, b: FloatBits, c: FloatBits, d: FloatBits },
    Batt { batt: i32 },
    /// Contact quality per channel.
    Horseshoe { a: FloatBits, b: FloatBits, c: FloatBits, d: FloatBits },
    TouchingForehead { touch: bool },
    Blink { blink: bool },
    JawClench { clench: bool },
}

/// A decoded event with the device it came from and its arrival time.
#[derive(Clone, Copy, Debug, PartialEq, Eq, Structural)]
pub struct MuseMessage {
    pub ip_address: SourceAddr,
    /// Arrival time in microseconds since the receiver started.
    pub time: u64,
    pub muse_message_type: MuseMessageType,
}

/// The known addresses, one per event variant.
#[derive(Clone, Copy, Debug, PartialEq, Eq, Structural)]
pub enum Route {
    Eeg,
    Accelerometer,
    Gyro,
    Horseshoe,
    Alpha,
    Beta,
    Gamma,
    Delta,
    Theta,
    TouchingForehead,
    Blink,
    JawClench,
    Battery,
}

/// The routing table: which event an address stands for.
pub open spec fn route_of(addr: Seq<char>) -> Option<Route> {
    if addr == "/muse/eeg"@ {
        Some(Route::Eeg)
    } else if addr == "/muse/acc"@ {
        Some(Route::Accelerometer)
    } else if addr == "/muse/gyro"@ {
        Some(Route::Gyro)
    } else if addr == "/muse/elements/horseshoe"@ {
        Some(Route::Horseshoe)
    } else if addr == "/muse/elements/alpha_absolute"@ {
        Some(Route::Alpha)
    } else if addr == "/muse/elements/beta_absolute"@ {
        Some(Route::Beta)
    } else if addr == "/muse/elements/gamma_absolute"@ {
        Some(Route::Gamma)
    } else if addr == "/muse/elements/delta_absolute"@ {
        Some(Route::Delta)
    } else if addr == "/muse/elements/theta_absolute"@ {
        Some(Route::Theta)
    } else if addr == "/muse/elements/touching_forehead"@ {
        Some(Route::TouchingForehead)
    } else if addr == "/muse/elements/blink"@ {
        Some(Route::Blink)
    } else if addr == "/muse/elements/jaw_clench"@ {
        Some(Route::JawClench)
    } else if addr == "/muse/batt"@ {
        Some(Route::Battery)
    } else {
        None
    }
}

pub open spec fn four_floats() -> Seq<WireKind> {
    seq![WireKind::Float, WireKind::Float, WireKind::Float, WireKind::Float]
}

pub open spec fn three_floats() -> Seq<WireKind> {
    seq![WireKind::Float, WireKind::Float, WireKind::Float]
}

pub open spec fn one_int() -> Seq<WireKind> {
    seq![WireKind::Int]
}

pub open spec fn two_ints() -> Seq<WireKind> {
    seq![WireKind::Int, WireKind::Int]
}

/// The wire types that a route reads, position by position.
pub open spec fn signature(route: Route) -> Seq<WireKind> {
    match route {
        Route::Accelerometer | Route::Gyro => three_floats(),
        Route::TouchingForehead | Route::Blink | Route::JawClench => one_int(),
        Route::Battery => two_ints(),
        _ => four_floats(),
    }
}

/// The first position from `i` on that does not hold what `expected` asks for.
pub open spec fn first_fault(args: Seq<WireValue>, expected: Seq<WireKind>, i: nat) -> Option<
    DecodeFault,
>
    decreases expected.len() - i,
{
    if i >= expected.len() {
        None
    } else {
        match slot_fault(args, i, expected[i as int]) {
            Some(f) => Some(f),
            None => first_fault(args, expected, i + 1),
        }
    }
}

/// Whether `args` holds a value of the named kind at each position that `expected` names.
pub open spec fn well_typed(args: Seq<WireValue>, expected: Seq<WireKind>) -> bool {
    &&& expected.len() <= args.len()
    &&& forall|j: int| 0 <= j < expected.len() ==> #[trigger] args[j].kind() == expected[j]
}

/// Whether position `k` is the first one that does not hold what `expected` asks for.
pub open spec fn first_bad_position(args: Seq<WireValue>, expected: Seq<WireKind>, k: nat) -> bool {
    &&& k < expected.len()
    &&& slot_fault(args, k, expected[k as int]) is Some
    &&& forall|j: int| 0 <= j < k ==> j < args.len() && #[trigger] args[j].kind() == expected[j]
}

/// The integer nearest to `n / d`, halves rounded away from zero.
pub open spec fn rounded_quotient(n: int, d: int) -> int
    recommends
        d != 0,
{
    let q = ((2 * abs(n) + abs(d)) / (2 * abs(d))) as int;
    if (n < 0) != (d < 0) {
        -q
    } else {
        q
    }
}

/// The battery percentage reported for the arguments `[divisor, dividend]`: the ratio
/// `dividend / divisor` rounded to the nearest integer and saturated to `i32`. A zero
/// divisor gives the saturated value of the dividend's sign, or zero.
pub open spec fn battery_ratio(divisor: int, dividend: int) -> int {
    if divisor == 0 {
        if dividend > 0 {
            i32::MAX as int
        } else if dividend < 0 {
            i32::MIN as int
        } else {
            0
        }
    } else {
        let q = rounded_quotient(dividend, divisor);
        if q > i32::MAX {
            i32::MAX as int
        } else if q < i32::MIN {
            i32::MIN as int
        } else {
            q
        }
    }
}

/// The event built from well-typed arguments, fields taken by position.
pub open spec fn event_of(route: Route, args: Seq<WireValue>) -> MuseMessageType {
    let f = |i: int| args[i].float_bits();
    let n = |i: int| args[i].int_value();
    match route {
        Route::Eeg => MuseMessageType::Eeg { a: f(0), b: f(1), c: f(2), d: f(3) },
        Route::Accelerometer => MuseMessageType::Accelerometer { x: f(0), y: f(1), z: f(2) },
        Route::Gyro => MuseMessageType::Gyro { x: f(0), y: f(1), z: f(2) },
        Route::Horseshoe => MuseMessageType::Horseshoe { a: f(0), b: f(1), c: f(2), d: f(3) },
        Route::Alpha => MuseMessageType::Alpha { a: f(0), b: f(1), c: f(2), d: f(3) },
        Route::Beta => MuseMessageType::Beta { a: f(0), b: f(1), c: f(2), d: f(3) },
        Route::Gamma => MuseMessageType::Gamma { a: f(0), b: f(1), c: f(2), d: f(3) },
        Route::Delta => MuseMessageType::Delta { a: f(0), b: f(1), c: f(2), d: f(3) },
        Route::Theta => MuseMessageType::Theta { a: f(0), b: f(1), c: f(2), d: f(3) },
        Route::TouchingForehead => MuseMessageType::TouchingForehead { touch: n(0) != 0 },
        Route::Blink => MuseMessageType::Blink { blink: n(0) != 0 },
        Route::JawClench => MuseMessageType::JawClench { clench: n(0) != 0 },
        Route::Battery => MuseMessageType::Batt {
            batt: battery_ratio(n(0) as int, n(1) as int) as i32,
        },
    }
}

/// Decoding of the arguments of a known route.
pub open spec fn decode_route(route: Route, args: Seq<WireValue>) -> Result<
    MuseMessageType,
    DecodeFault,
> {
    match first_fault(args, signature(route), 0) {
        Some(f) => Err(f),
        None => Ok(event_of(route, args)),
    }
}

/// Decoding of one message.
pub open spec fn decode_message(addr: Seq<char>, args: Seq<WireValue>) -> Result<
    MuseMessageType,
    DecodeFault,
> {
    match route_of(addr) {
        None => Err(DecodeFault::UnknownAddress(addr)),
        Some(route) => decode_route(route, args),
    }
}

/// The battery percentage for the arguments `[divisor, dividend]`.
pub fn battery_percent(divisor: i32, dividend: i32) -> (r: i32)
    ensures
        r == battery_ratio(divisor as int, dividend as int),
{
    if divisor == 0 {
        return if dividend > 0 {
            i32::MAX
        } else if dividend < 0 {
            i32::MIN
        } else {
            0
        };
    }
    let n: u64 = if dividend < 0 {
        (-(dividend as i64)) as u64
    } else {
        dividend as u64
    };
    let d: u64 = if divisor < 0 {
        (-(divisor as i64)) as u64
    } else {
        divisor as u64
    };
    let q: u64 = (2 * n + d) / (2 * d);
    assert(q <= n) by (nonlinear_arith)
        requires
            q == (2 * n + d) / (2 * d),
            d >= 1,
    {
        assert(q * (2 * d) <= 2 * n + d);
        if q > n {
            assert(q * (2 * d) >= (n + 1) * (2 * d));
        }
    }
    if (dividend < 0) != (divisor < 0) {
        -(q as i64) as i32
    } else if q > i32::MAX as u64 {
        i32::MAX
    } else {
        q as i32
    }
}

/// Looks an address up in the routing table.
pub fn route_of_address(addr: &str) -> (r: Option<Route>)
    ensures
        r == route_of(addr@),
{
    if same_text(addr, "/muse/eeg") {
        Some(Route::Eeg)
    } else if same_text(addr, "/muse/acc") {
        Some(Route::Accelerometer)
    } else if same_text(addr, "/muse/gyro") {
        Some(Route::Gyro)
    } else if same_text(addr, "/muse/elements/horseshoe") {
        Some(Route::Horseshoe)
    } else if same_text(addr, "/muse/elements/alpha_absolute") {
        Some(Route::Alpha)
    } else if same_text(addr, "/muse/elements/beta_absolute") {
        Some(Route::Beta)
    } else if same_text(addr, "/muse/elements/gamma_absolute") {
        Some(Route::Gamma)
    } else if same_text(addr, "/muse/elements/delta_absolute") {
        Some(Route::Delta)
    } else if same_text(addr, "/muse/elements/theta_absolute") {
        Some(Route::Theta)
    } else if same_text(addr, "/muse/elements/touching_forehead") {
        Some(Route::TouchingForehead)
    } else if same_text(addr, "/muse/elements/blink") {
        Some(Route::Blink)
    } else if same_text(addr, "/muse/elements/jaw_clench") {
        Some(Route::JawClench)
    } else if same_text(addr, "/muse/batt") {
        Some(Route::Battery)
    } else {
        None
    }
}

/// Reads four float arguments at positions 0 to 3.
fn read_four_floats(args: &Vec<WireValue>) -> (r: Result<
    (FloatBits, FloatBits, FloatBits, FloatBits),
    DecodeError,
>)
    ensures
        match r {
            Ok((a, b, c, d)) => {
                &&& first_fault(args@, four_floats(), 0) is None
                &&& a == args@[0].float_bits() && b == args@[1].float_bits()
                &&& c == args@[2].float_bits() && d == args@[3].float_bits()
            },
            Err(e) => first_fault(args@, four_floats(), 0) == Some(e@),
        },
{
    reveal_with_fuel(first_fault, 5);
    let a = match get_float_from_args(0, args) {
        Ok(v) => v,
        Err(e) => return Err(e),
    };
    let b = match get_float_from_args(1, args) {
        Ok(v) => v,
        Err(e) => return Err(e),
    };
    let c = match get_float_from_args(2, args) {
        Ok(v) => v,
        Err(e) => return Err(e),
    };
    let d = match get_float_from_args(3, args) {
        Ok(v) => v,
        Err(e) => return Err(e),
    };
    Ok((a, b, c, d))
}

/// Reads three float arguments at positions 0 to 2.
fn read_three_floats(args: &Vec<WireValue>) -> (r: Result<(FloatBits, FloatBits, FloatBits), DecodeError>)
    ensures
        match r {
            Ok((x, y, z)) => {
                &&& first_fault(args@, three_floats(), 0) is None
                &&& x == args@[0].float_bits() && y == args@[1].float_bits()
                &&& z == args@[2].float_bits()
            },
            Err(e) => first_fault(args@, three_floats(), 0) == Some(e@),
        },
{
    reveal_with_fuel(first_fault, 4);
    let x = match get_float_from_args(0, args) {
        Ok(v) => v,
        Err(e) => return Err(e),
    };
    let y = match get_float_from_args(1, args) {
        Ok(v) => v,
        Err(e) => return Err(e),
    };
    let z = match get_float_from_args(2, args) {
        Ok(v) => v,
        Err(e) => return Err(e),
    };
    Ok((x, y, z))
}

/// Reads one integer argument at position 0 and tells whether it is non-zero.
fn read_flag(args: &Vec<WireValue>) -> (r: Result<bool, DecodeError>)
    ensures
        match r {
            Ok(on) => {
                &&& first_fault(args@, one_int(), 0) is None
                &&& on == (args@[0].int_value() != 0)
            },
            Err(e) => first_fault(args@, one_int(), 0) == Some(e@),
        },
{
    reveal_with_fuel(first_fault, 2);
    match get_int_from_args(0, args) {
        Ok(v) => Ok(v != 0),
        Err(e) => Err(e),
    }
}

/// Reads the two battery integers and computes the percentage from them.
fn read_battery(args: &Vec<WireValue>) -> (r: Result<i32, DecodeError>)
    ensures
        match r {
            Ok(batt) => {
                &&& first_fault(args@, two_ints(), 0) is None
                &&& batt == battery_ratio(
                    args@[0].int_value() as int,
                    args@[1].int_value() as int,
                )
            },
            Err(e) => first_fault(args@, two_ints(), 0) == Some(e@),
        },
{
    reveal_with_fuel(first_fault, 3);
    let divisor = match get_int_from_args(0, args) {
        Ok(v) => v,
        Err(e) => return Err(e),
    };
    let dividend = match get_int_from_args(1, args) {
        Ok(v) => v,
        Err(e) => return Err(e),
    };
    Ok(battery_percent(divisor, dividend))
}

/// Decodes the arguments of a known route into its event.
pub fn decode_route_args(route: Route, args: &Vec<WireValue>) -> (r: Result<
    MuseMessageType,
    DecodeError,
>)
    ensures
        result_view(r) == decode_route(route, args@),
{
    match route {
        Route::Accelerometer | Route::Gyro => {
            let (x, y, z) = match read_three_floats(args) {
                Ok(t) => t,
                Err(e) => return Err(e),
            };
            if let Route::Gyro = route {
                Ok(MuseMessageType::Gyro { x, y, z })
            } else {
                Ok(MuseMessageType::Accelerometer { x, y, z })
            }
        },
        Route::TouchingForehead | Route::Blink | Route::JawClench => {
            let on = match read_flag(args) {
                Ok(v) => v,
                Err(e) => return Err(e),
            };
            match route {
                Route::TouchingForehead => Ok(MuseMessageType::TouchingForehead { touch: on }),
                Route::Blink => Ok(MuseMessageType::Blink { blink: on }),
                _ => Ok(MuseMessageType::JawClench { clench: on }),
            }
        },
        Route::Battery => match read_battery(args) {
            Ok(batt) => Ok(MuseMessageType::Batt { batt }),
            Err(e) => Err(e),
        },
        _ => {
            let (a, b, c, d) = match read_four_floats(args) {
                Ok(t) => t,
                Err(e) => return Err(e),
            };
            match route {
                Route::Eeg => Ok(MuseMessageType::Eeg { a, b, c, d }),
                Route::Horseshoe => Ok(MuseMessageType::Horseshoe { a, b, c, d }),
                Route::Alpha => Ok(MuseMessageType::Alpha { a, b, c, d }),
                Route::Beta => Ok(MuseMessageType::Beta { a, b, c, d }),
                Route::Gamma => Ok(MuseMessageType::Gamma { a, b, c, d }),
                Route::Delta => Ok(MuseMessageType::Delta { a, b, c, d }),
                _ => Ok(MuseMessageType::Theta { a, b, c, d }),
            }
        },
    }
}

/// Decodes one message: looks its address up, then reads the arguments that the
/// address calls for. Arguments past those are ignored.
pub fn parse_muse_message_type(addr: &str, args: &Vec<WireValue>) -> (r: Result<
    MuseMessageType,
    DecodeError,
>)
    ensures
        result_view(r) == decode_message(addr@, args@),
{
    match route_of_address(addr) {
        Some(route) => decode_route_args(route, args),
        None => Err(DecodeError::UnknownAddress(String::from_str(addr))),
    }
}

/// The events that a sequence of messages decodes to, in order; failures are skipped.
pub open spec fn decoded_events(source: SourceAddr, time: u64, msgs: Seq<WireMessage>) -> Seq<
    MuseMessage,
>
    decreases msgs.len(),
{
    if msgs.len() == 0 {
        Seq::empty()
    } else {
        let prior = decoded_events(source, time, msgs.drop_last());
        match decode_message(msgs.last().addr@, msgs.last().args@) {
            Ok(t) => prior.push(MuseMessage { ip_address: source, time, muse_message_type: t }),
            Err(_) => prior,
        }
    }
}

/// The failures that a sequence of messages decodes to, in order.
pub open spec fn decode_faults(msgs: Seq<WireMessage>) -> Seq<DecodeFault>
    decreases msgs.len(),
{
    if msgs.len() == 0 {
        Seq::empty()
    } else {
        let prior = decode_faults(msgs.drop_last());
        match decode_message(msgs.last().addr@, msgs.last().args@) {
            Ok(_) => prior,
            Err(f) => prior.push(f),
        }
    }
}

/// Decodes the messages of one packet, already unfolded from any bundle, in their order.
/// Returns the events, stamped with the sender and the arrival time, and the failures;
/// a message that fails is dropped and the rest are still decoded.
pub fn parse_muse_packet(source: SourceAddr, time: u64, messages: &Vec<WireMessage>) -> (r: (
    Vec<MuseMessage>,
    Vec<DecodeError>,
))
    ensures
        r.0@ == decoded_events(source, time, messages@),
        r.1@.map_values(|e: DecodeError| e@) == decode_faults(messages@),
{
    let mut events: Vec<MuseMessage> = Vec::new();
    let mut faults: Vec<DecodeError> = Vec::new();
    let mut i: usize = 0;
    while i < messages.len()
        invariant
            i <= messages@.len(),
            events@ == decoded_events(source, time, messages@.subrange(0, i as int)),
            faults@.map_values(|e: DecodeError| e@) == decode_faults(
                messages@.subrange(0, i as int),
            ),
        decreases messages@.len() - i,
    {
        let msg = &messages[i];
        let outcome = parse_muse_message_type(msg.addr.as_str(), &msg.args);
        proof {
            let done = messages@.subrange(0, i + 1);
            assert(done.drop_last() =~= messages@.subrange(0, i as int));
            assert(done.last() == messages@[i as int]);
        }
        match outcome {
            Ok(t) => {
                events.push(MuseMessage { ip_address: source, time, muse_message_type: t });
            },
            Err(e) => {
                let ghost before = faults@;
                faults.push(e);
                proof {
                    assert(faults@.map_values(|e: DecodeError| e@) =~= before.map_values(
                        |e: DecodeError| e@,
                    ).push(e@));
                }
            },
        }
        i = i + 1;
    }
    assert(messages@.subrange(0, messages@.len() as int) =~= messages@);
    (events, faults)
}

proof fn lemma_no_fault_from(args: Seq<WireValue>, expected: Seq<WireKind>, i: nat)
    requires
        forall|j: int| i <= j < expected.len() ==> j < args.len() && #[trigger] args[j].kind()
            == expected[j],
    ensures
        first_fault(args, expected, i) is None,
    decreases expected.len() - i,
{
    if i < expected.len() {
        assert(args[i as int].kind() == expected[i as int]);
        lemma_no_fault_from(args, expected, i + 1);
    }
}

proof fn lemma_fault_at(args: Seq<WireValue>, expected: Seq<WireKind>, i: nat, k: nat)
    requires
        i <= k < expected.len(),
        slot_fault(args, k, expected[k as int]) is Some,
        forall|j: int| i <= j < k ==> j < args.len() && #[trigger] args[j].kind() == expected[j],
    ensures
        first_fault(args, expected, i) == slot_fault(args, k, expected[k as int]),
    decreases k - i,
{
    if i < k {
        assert(args[i as int].kind() == expected[i as int]);
        lemma_fault_at(args, expected, i + 1, k);
    }
}

/// A message to a known address whose arguments have the types that the address calls
/// for decodes to that address's event, each field read from its documented position.
pub proof fn lemma_known_address_decodes(addr: Seq<char>, args: Seq<WireValue>, route: Route)
    requires
        route_of(addr) == Some(route),
        well_typed(args, signature(route)),
    ensures
        decode_message(addr, args) == Ok::<MuseMessageType, DecodeFault>(event_of(route, args)),
{
    lemma_no_fault_from(args, signature(route), 0);
}

/// A message to an address outside the routing table is rejected as unknown, whatever
/// its arguments.
pub proof fn lemma_unknown_address_rejected(addr: Seq<char>, args: Seq<WireValue>)
    requires
        route_of(addr) is None,
    ensures
        decode_message(addr, args) == Err::<MuseMessageType, DecodeFault>(
            DecodeFault::UnknownAddress(addr),
        ),
{
}

/// A message to a known address whose arguments end too early, or hold the wrong type at
/// a position that the address reads, is rejected with the fault of the first such
/// position: `MissingArgument` past the end, `TypeMismatch` for a wrong type.
pub proof fn lemma_bad_arguments_rejected(
    addr: Seq<char>,
    args: Seq<WireValue>,
    route: Route,
    k: nat,
)
    requires
        route_of(addr) == Some(route),
        first_bad_position(args, signature(route), k),
    ensures
        k >= args.len() ==> decode_message(addr, args) == Err::<MuseMessageType, DecodeFault>(
            DecodeFault::MissingArgument(k),
        ),
        k < args.len() ==> decode_message(addr, args) == Err::<MuseMessageType, DecodeFault>(
            DecodeFault::TypeMismatch(k, signature(route)[k as int]),
        ),
{
    lemma_fault_at(args, signature(route), 0, k);
}

} // verus!
