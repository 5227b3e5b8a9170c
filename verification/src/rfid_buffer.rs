//! The reader's bit buffer. Pulses of the card reader arrive as bits; a
//! pause closes a read, and the collected bits are then either a keypad
//! code or a badge number. Keypad digits pile up into a PIN, `#` submits
//! the PIN, `*` wipes it, and any bits that are no keypad code are a badge
//! to authorize. The waiting for bits, the clock and the bouncer's database
//! are outside; this buffer takes what they produced and says what to do.

use vstd::prelude::*;
use crate::bouncer::Variety;
use crate::key_mapper::{spec_key, key_table, lemma_lookup_entry, KeyMapper};
use crate::text::{concat_all, decimal, lemma_concat_all_push, lemma_concat_all_single_chars, push_decimal, str_eq};

verus! {

/// What the wait for the next bit produced.
#[derive(Debug, Clone, Copy, PartialEq, Eq, Structural)]
pub enum BufferEvent {
    /// A bit arrived.
    Bit(u8),
    /// The wait timed out.
    Timeout,
    /// The sender is gone.
    Disconnected,
}

/// A request to check a presented secret.
#[derive(Debug)]
pub struct AuthorizationRequest {
    pub variety: Variety,
    pub value: String,
}

/// Why an authorization could not be decided.
#[derive(Debug)]
pub struct AuthorizationError {
    pub message: String,
}

/// How an authorization attempt ended.
#[derive(Debug, Clone, Copy, PartialEq, Eq, Structural)]
pub enum AuthorizationOutcome {
    Approved,
    Denied,
    Failed,
}

/// The state of the buffer as the contracts speak of it.
pub struct RfidBufferView {
    /// The bits of the read in progress.
    pub bits: Seq<u8>,
    /// The keys typed so far, oldest first.
    pub pin_keys: Seq<Seq<char>>,
    /// The time, in nanoseconds, at which the last key was added.
    pub last_add_ns: u128,
    /// Whether a read is in progress (bits arrived and no pause yet).
    pub reading: bool,
    pub wait_timeout_ms: u64,
    pub read_timeout_ms: u64,
    pub pin_key_timeout_secs: u64,
}

/// The bits written out one after the other, each in decimal.
pub open spec fn bit_string(bits: Seq<u8>) -> Seq<char>
    decreases bits.len(),
{
    if bits.len() == 0 {
        Seq::empty()
    } else {
        bit_string(bits.drop_last()) + decimal(bits.last() as nat)
    }
}

/// A key of the keypad that is part of a PIN: one decimal digit.
pub open spec fn is_digit_key(key: Seq<char>) -> bool {
    key.len() == 1 && '0' <= key[0] && key[0] <= '9'
}

/// Whether the typed keys have gone stale at time `now_ns`: there are keys,
/// and more than the PIN timeout has passed since the last one was added.
pub open spec fn is_stale(v: RfidBufferView, now_ns: u128) -> bool {
    v.pin_keys.len() > 0 && now_ns - v.last_add_ns > v.pin_key_timeout_secs * 1_000_000_000
}

/// The request that closing a read of `v` makes: the typed PIN when the
/// bits are the `#` code, the bits themselves when they are no keypad code.
pub open spec fn closing_request(v: RfidBufferView) -> Option<(Variety, Seq<char>)> {
    match spec_key(bit_string(v.bits)) {
        Some(k) => if k == seq!['#'] {
            Some((Variety::PIN, concat_all(v.pin_keys)))
        } else {
            None
        },
        None => Some((Variety::RFID, bit_string(v.bits))),
    }
}

/// The buffer after closing a read of `v` at time `now_ns`: the bits are
/// gone; `*` wipes the typed keys, a digit is added to them.
pub open spec fn after_closing(v: RfidBufferView, now_ns: u128) -> RfidBufferView {
    let cleared = RfidBufferView { bits: Seq::empty(), ..v };
    match spec_key(bit_string(v.bits)) {
        Some(k) => if k == seq!['#'] {
            cleared
        } else if k == seq!['*'] {
            RfidBufferView { pin_keys: Seq::empty(), ..cleared }
        } else {
            RfidBufferView { pin_keys: v.pin_keys.push(k), last_add_ns: now_ns, ..cleared }
        },
        None => cleared,
    }
}

/// The buffer after `event` at time `now_ns`.
pub open spec fn after_event(v: RfidBufferView, event: BufferEvent, now_ns: u128) -> RfidBufferView {
    if !v.reading {
        match event {
            BufferEvent::Bit(b) => RfidBufferView { bits: v.bits.push(b), reading: true, ..v },
            BufferEvent::Timeout => if is_stale(v, now_ns) {
                RfidBufferView { pin_keys: Seq::empty(), ..v }
            } else {
                v
            },
            BufferEvent::Disconnected => v,
        }
    } else {
        match event {
            BufferEvent::Bit(b) => RfidBufferView { bits: v.bits.push(b), ..v },
            BufferEvent::Timeout => RfidBufferView { reading: false, ..after_closing(v, now_ns) },
            BufferEvent::Disconnected => RfidBufferView { reading: false, ..v },
        }
    }
}

/// The request that `event` makes: only a pause that closes a read makes one.
pub open spec fn event_request(v: RfidBufferView, event: BufferEvent) -> Option<(Variety, Seq<char>)> {
    if v.reading && event == BufferEvent::Timeout {
        closing_request(v)
    } else {
        None
    }
}

/// The buffer once the bouncer's answer to a request is taken: no typed keys remain.
pub open spec fn after_answer(v: RfidBufferView) -> RfidBufferView {
    RfidBufferView { pin_keys: Seq::empty(), ..v }
}

/// The variety and value of a request, as plain values.
pub open spec fn request_view(r: Option<AuthorizationRequest>) -> Option<(Variety, Seq<char>)> {
    match r {
        Some(r) => Some((r.variety, r.value@)),
        None => None,
    }
}

/// The outcome that the bouncer's answer stands for.
pub open spec fn outcome_of(result: Result<bool, AuthorizationError>) -> AuthorizationOutcome {
    match result {
        Ok(true) => AuthorizationOutcome::Approved,
        Ok(false) => AuthorizationOutcome::Denied,
        Err(_) => AuthorizationOutcome::Failed,
    }
}

/// A key of the table is a digit, `*` or `#`.
pub proof fn lemma_table_keys()
    ensures
        forall|i: int|
            0 <= i < key_table().len() ==> {
                let k = #[trigger] key_table()[i].1;
                is_digit_key(k) || k == seq!['*'] || k == seq!['#']
            },
{
}

/// A keypad key found for a code is a digit, `*` or `#`.
pub proof fn lemma_key_kinds(code: Seq<char>)
    requires
        spec_key(code) is Some,
    ensures
        is_digit_key(spec_key(code)->0) || spec_key(code)->0 == seq!['*'] || spec_key(code)->0 == seq!['#'],
{
    lemma_table_keys();
    lemma_lookup_entry(key_table(), code);
}

/// The bits the reader sends for a code written with `0` and `1`.
pub open spec fn code_bits(code: Seq<char>) -> Seq<u8> {
    code.map_values(|c: char| if c == '1' { 1u8 } else { 0u8 })
}

/// The events of one read: the bits, each as it arrives, then the pause.
pub open spec fn read_events(bits: Seq<u8>) -> Seq<BufferEvent> {
    bits.map_values(|b: u8| BufferEvent::Bit(b)).push(BufferEvent::Timeout)
}

/// The buffer after taking `events`, one after the other, at time `now_ns`.
pub open spec fn after_events(v: RfidBufferView, events: Seq<BufferEvent>, now_ns: u128) -> RfidBufferView
    decreases events.len(),
{
    if events.len() == 0 {
        v
    } else {
        after_events(after_event(v, events[0], now_ns), events.drop_first(), now_ns)
    }
}

/// A code written with `0` and `1` only.
pub open spec fn is_binary(code: Seq<char>) -> bool {
    forall|i: int| 0 <= i < code.len() ==> (#[trigger] code[i] == '0' || code[i] == '1')
}

/// Taking events one after the other, in two parts.
pub proof fn lemma_after_events_append(
    v: RfidBufferView,
    first: Seq<BufferEvent>,
    second: Seq<BufferEvent>,
    now_ns: u128,
)
    ensures
        after_events(v, first + second, now_ns) == after_events(after_events(v, first, now_ns), second, now_ns),
    decreases first.len(),
{
    if first.len() > 0 {
        assert((first + second).drop_first() =~= first.drop_first() + second);
        lemma_after_events_append(after_event(v, first[0], now_ns), first.drop_first(), second, now_ns);
    } else {
        assert(first + second =~= second);
    }
}

/// Bits that arrive one after the other are all collected, and a read is in
/// progress once one has arrived.
pub proof fn lemma_bits_collected(v: RfidBufferView, bits: Seq<u8>, now_ns: u128)
    ensures
        after_events(v, bits.map_values(|b: u8| BufferEvent::Bit(b)), now_ns)
            == (RfidBufferView { bits: v.bits + bits, reading: v.reading || bits.len() > 0, ..v }),
    decreases bits.len(),
{
    let events = bits.map_values(|b: u8| BufferEvent::Bit(b));
    if bits.len() == 0 {
        assert(v.bits + bits =~= v.bits);
    } else {
        let next = RfidBufferView { bits: v.bits.push(bits[0]), reading: true, ..v };
        assert(after_event(v, events[0], now_ns) == next);
        assert(events.drop_first() =~= bits.drop_first().map_values(|b: u8| BufferEvent::Bit(b)));
        lemma_bits_collected(next, bits.drop_first(), now_ns);
        assert(next.bits + bits.drop_first() =~= v.bits + bits);
    }
}

/// The text of the bits sent for a binary code is the code itself.
pub proof fn lemma_code_text(code: Seq<char>)
    requires
        is_binary(code),
    ensures
        bit_string(code_bits(code)) == code,
    decreases code.len(),
{
    if code.len() > 0 {
        let rest = code.drop_last();
        assert(is_binary(rest)) by {
            assert forall|i: int| 0 <= i < rest.len() implies (#[trigger] rest[i] == '0' || rest[i] == '1') by {
                assert(rest[i] == code[i]);
            }
        }
        lemma_code_text(rest);
        assert(code_bits(code).drop_last() =~= code_bits(rest));
        assert(code[code.len() - 1] == '0' || code[code.len() - 1] == '1');
        reveal_with_fuel(decimal, 1);
        assert(rest + seq![code.last()] =~= code);
    } else {
        assert(code_bits(code) =~= Seq::<u8>::empty());
        assert(code =~= Seq::<char>::empty());
    }
}

/// Every code of the keypad table is a binary code of eight bits.
pub proof fn lemma_table_codes()
    ensures
        forall|i: int|
            0 <= i < key_table().len() ==> #[trigger] key_table()[i].0.len() == 8 && is_binary(key_table()[i].0),
{
    assert forall|i: int| 0 <= i < key_table().len() implies #[trigger] key_table()[i].0.len() == 8
        && is_binary(key_table()[i].0) by {
        let c = key_table()[i].0;
        assert forall|j: int| 0 <= j < c.len() implies (#[trigger] c[j] == '0' || c[j] == '1') by {
        }
    }
}

/// A keypad code is binary and eight bits long.
pub proof fn lemma_keypad_code_shape(code: Seq<char>)
    requires
        spec_key(code) is Some,
    ensures
        code.len() == 8,
        is_binary(code),
{
    lemma_table_codes();
    lemma_lookup_entry(key_table(), code);
}

/// The pending bits once `bits` are added to those of `v`.
pub open spec fn with_bits(v: RfidBufferView, bits: Seq<u8>) -> RfidBufferView {
    RfidBufferView { bits: v.bits + bits, ..v }
}

/// A whole read: when a read is in progress or at least one bit arrives,
/// the bits that arrive one after the other and then a pause have the same
/// effect as adding all of them to the pending bits and closing the read
/// once. The bits are then gone, the buffer waits again, and the pause
/// makes the request that closing the collected bits makes.
pub proof fn lemma_whole_read(v: RfidBufferView, bits: Seq<u8>, now_ns: u128)
    requires
        v.reading || bits.len() > 0,
    ensures
        after_events(v, read_events(bits), now_ns)
            == (RfidBufferView { reading: false, ..after_closing(with_bits(v, bits), now_ns) }),
        event_request(
            after_events(v, bits.map_values(|b: u8| BufferEvent::Bit(b)), now_ns),
            BufferEvent::Timeout,
        ) == closing_request(with_bits(v, bits)),
        after_events(v, read_events(bits), now_ns).bits.len() == 0,
        !after_events(v, read_events(bits), now_ns).reading,
{
    let arrivals = bits.map_values(|b: u8| BufferEvent::Bit(b));
    lemma_bits_collected(v, bits, now_ns);
    lemma_after_events_append(v, arrivals, seq![BufferEvent::Timeout], now_ns);
    assert(arrivals.push(BufferEvent::Timeout) =~= arrivals + seq![BufferEvent::Timeout]);
    let collected = after_events(v, arrivals, now_ns);
    assert(seq![BufferEvent::Timeout].drop_first() =~= Seq::<BufferEvent>::empty());
    assert(after_events(collected, seq![BufferEvent::Timeout], now_ns) == after_event(collected, BufferEvent::Timeout, now_ns)) by {
        reveal_with_fuel(after_events, 2);
    }
}

/// While no read is in progress: a bit that arrives is added to the
/// pending bits and starts a read; a pause leaves the bits as they are and
/// drops the typed keys exactly when they are stale; a lost sender changes
/// nothing. None of these makes a request.
pub proof fn lemma_waiting_step(v: RfidBufferView, bit: u8, now_ns: u128)
    requires
        !v.reading,
    ensures
        after_event(v, BufferEvent::Bit(bit), now_ns) == (RfidBufferView { bits: v.bits.push(bit), reading: true, ..v }),
        after_event(v, BufferEvent::Timeout, now_ns) == (RfidBufferView {
            pin_keys: if is_stale(v, now_ns) { Seq::empty() } else { v.pin_keys },
            ..v
        }),
        after_event(v, BufferEvent::Disconnected, now_ns) == v,
        event_request(v, BufferEvent::Bit(bit)) is None,
        event_request(v, BufferEvent::Timeout) is None,
        event_request(v, BufferEvent::Disconnected) is None,
{
}

/// A read that starts while waiting: the first bit is added and starts the
/// read, and the rest of the read then adds the other bits and closes it
/// once, as a whole read of all the bits does.
pub proof fn lemma_read_from_waiting(v: RfidBufferView, first: u8, rest: Seq<u8>, now_ns: u128)
    requires
        !v.reading,
    ensures
        after_events(v, read_events(seq![first] + rest), now_ns)
            == after_events(after_event(v, BufferEvent::Bit(first), now_ns), read_events(rest), now_ns),
        after_events(v, read_events(seq![first] + rest), now_ns)
            == (RfidBufferView { reading: false, ..after_closing(with_bits(v, seq![first] + rest), now_ns) }),
{
    let bits = seq![first] + rest;
    assert(read_events(bits)[0] == BufferEvent::Bit(first));
    assert(read_events(bits).drop_first() =~= read_events(rest));
    lemma_whole_read(v, bits, now_ns);
}

/// Keying a digit: when no read is in progress and no bits are pending, one
/// read of the bits of the digit's keypad code adds the digit to the typed
/// keys, stamped with the time, and leaves the buffer waiting with no bits.
pub proof fn lemma_digit_entry(v: RfidBufferView, code: Seq<char>, now_ns: u128)
    requires
        !v.reading,
        v.bits.len() == 0,
        spec_key(code) is Some,
        is_digit_key(spec_key(code)->0),
    ensures
        after_events(v, read_events(code_bits(code)), now_ns) == (RfidBufferView {
            pin_keys: v.pin_keys.push(spec_key(code)->0),
            last_add_ns: now_ns,
            ..v
        }),
        event_request(
            after_events(v, code_bits(code).map_values(|b: u8| BufferEvent::Bit(b)), now_ns),
            BufferEvent::Timeout,
        ) is None,
{
    lemma_read_of_code(v, code, now_ns);
    assert(v.bits =~= Seq::<u8>::empty());
}

/// Submitting a PIN: when no read is in progress and no bits are pending,
/// one read of the bits of the `#` code asks to check the typed keys, one
/// after the other, as a PIN; and once the bouncer's answer is taken, no
/// typed keys remain.
pub proof fn lemma_pin_submission(v: RfidBufferView, code: Seq<char>, now_ns: u128)
    requires
        !v.reading,
        v.bits.len() == 0,
        spec_key(code) == Some(seq!['#']),
    ensures
        event_request(
            after_events(v, code_bits(code).map_values(|b: u8| BufferEvent::Bit(b)), now_ns),
            BufferEvent::Timeout,
        ) == Some((Variety::PIN, concat_all(v.pin_keys))),
        after_events(v, read_events(code_bits(code)), now_ns) == v,
        after_answer(after_events(v, read_events(code_bits(code)), now_ns)).pin_keys.len() == 0,
        after_answer(after_events(v, read_events(code_bits(code)), now_ns)).bits.len() == 0,
{
    lemma_read_of_code(v, code, now_ns);
    assert(v.bits =~= Seq::<u8>::empty());
}

/// The PIN that `#` submits is every typed digit, in order: it has one
/// character per typed key, the one typed at that place.
pub proof fn lemma_submitted_pin_is_typed_digits(v: RfidBufferView, code: Seq<char>, now_ns: u128)
    requires
        !v.reading,
        v.bits.len() == 0,
        spec_key(code) == Some(seq!['#']),
        forall|i: int| 0 <= i < v.pin_keys.len() ==> is_digit_key(#[trigger] v.pin_keys[i]),
    ensures
        ({
            let request = event_request(
                after_events(v, code_bits(code).map_values(|b: u8| BufferEvent::Bit(b)), now_ns),
                BufferEvent::Timeout,
            );
            &&& request matches Some((variety, pin))
            &&& variety == Variety::PIN
            &&& pin.len() == v.pin_keys.len()
            &&& forall|i: int| 0 <= i < v.pin_keys.len() ==> pin[i] == (#[trigger] v.pin_keys[i])[0]
        }),
{
    lemma_pin_submission(v, code, now_ns);
    lemma_typed_pin(v.pin_keys);
}

/// One read of the bits of a keypad code, when no read is in progress and
/// no bits are pending, closes on exactly that code.
pub proof fn lemma_read_of_code(v: RfidBufferView, code: Seq<char>, now_ns: u128)
    requires
        !v.reading,
        v.bits.len() == 0,
        spec_key(code) is Some,
    ensures
        after_events(v, read_events(code_bits(code)), now_ns)
            == (RfidBufferView { reading: false, ..after_closing(with_bits(v, code_bits(code)), now_ns) }),
        event_request(
            after_events(v, code_bits(code).map_values(|b: u8| BufferEvent::Bit(b)), now_ns),
            BufferEvent::Timeout,
        ) == closing_request(with_bits(v, code_bits(code))),
        bit_string(with_bits(v, code_bits(code)).bits) == code,
{
    lemma_keypad_code_shape(code);
    lemma_code_text(code);
    lemma_whole_read(v, code_bits(code), now_ns);
    assert(v.bits + code_bits(code) =~= code_bits(code));
    assert(v.bits =~= Seq::<u8>::empty());
}

/// Badge reads: when no read is in progress and no bits are pending, one
/// read of bits whose text is no keypad code asks to check that text as a
/// badge number, and leaves the buffer waiting with no bits.
pub proof fn lemma_badge_read(v: RfidBufferView, bits: Seq<u8>, now_ns: u128)
    requires
        !v.reading,
        v.bits.len() == 0,
        bits.len() > 0,
        spec_key(bit_string(bits)) is None,
    ensures
        event_request(
            after_events(v, bits.map_values(|b: u8| BufferEvent::Bit(b)), now_ns),
            BufferEvent::Timeout,
        ) == Some((Variety::RFID, bit_string(bits))),
        after_events(v, read_events(bits), now_ns) == v,
{
    lemma_whole_read(v, bits, now_ns);
    assert(v.bits + bits =~= bits);
    assert(v.bits =~= Seq::<u8>::empty());
}

/// A PIN made of typed digits has one character per typed key, each the
/// digit typed at that place; typing one more digit appends exactly that digit.
pub proof fn lemma_typed_pin(keys: Seq<Seq<char>>)
    requires
        forall|i: int| 0 <= i < keys.len() ==> is_digit_key(#[trigger] keys[i]),
    ensures
        concat_all(keys).len() == keys.len(),
        forall|i: int| 0 <= i < keys.len() ==> concat_all(keys)[i] == (#[trigger] keys[i])[0],
        forall|k: Seq<char>| is_digit_key(k) ==> #[trigger] concat_all(keys.push(k)) == concat_all(keys) + k,
{
    assert forall|i: int| 0 <= i < keys.len() implies (#[trigger] keys[i]).len() == 1 by {
        assert(is_digit_key(keys[i]));
    }
    lemma_concat_all_single_chars(keys);
    assert forall|k: Seq<char>| is_digit_key(k) implies #[trigger] concat_all(keys.push(k)) == concat_all(keys) + k by {
        lemma_concat_all_push(keys, k);
    }
}

/// Collects the reader's bits and typed keys, and turns them into requests.
pub struct RfidBuffer<'a> {
    bit_buffer: Vec<u8>,
    pin_key_buffer: Vec<&'a str>,
    pin_key_buffer_last_add_ns: u128,
    key_mapper: KeyMapper<'a>,
    wait_timeout_ms: u64,
    read_timeout_ms: u64,
    pin_key_timeout_secs: u64,
    reading: bool,
}

impl<'a> View for RfidBuffer<'a> {
    type V = RfidBufferView;

    closed spec fn view(&self) -> RfidBufferView {
        RfidBufferView {
            bits: self.bit_buffer@,
            pin_keys: self.pin_key_buffer@.map_values(|k: &'a str| k@),
            last_add_ns: self.pin_key_buffer_last_add_ns,
            reading: self.reading,
            wait_timeout_ms: self.wait_timeout_ms,
            read_timeout_ms: self.read_timeout_ms,
            pin_key_timeout_secs: self.pin_key_timeout_secs,
        }
    }
}

impl<'a> RfidBuffer<'a> {
    /// Every typed key is a digit.
    #[verifier::type_invariant]
    closed spec fn typed_keys_are_digits(self) -> bool {
        forall|i: int| 0 <= i < self.pin_key_buffer@.len() ==> is_digit_key(#[trigger] self.pin_key_buffer@[i]@)
    }

    /// An empty buffer, waiting for bits, with the given timeouts; `now_ns`
    /// is the current time, taken as the time of the last added key.
    pub fn new(wait_timeout_ms: usize, read_timeout_ms: usize, pin_key_timeout_secs: usize, now_ns: u128) -> (buffer: RfidBuffer<'a>)
        ensures
            buffer@.bits.len() == 0,
            buffer@.pin_keys.len() == 0,
            buffer@.last_add_ns == now_ns,
            !buffer@.reading,
            buffer@.wait_timeout_ms == wait_timeout_ms as u64,
            buffer@.read_timeout_ms == read_timeout_ms as u64,
            buffer@.pin_key_timeout_secs == pin_key_timeout_secs as u64,
    {
        let buffer = RfidBuffer {
            bit_buffer: Vec::new(),
            pin_key_buffer: Vec::new(),
            pin_key_buffer_last_add_ns: now_ns,
            key_mapper: KeyMapper::new(),
            wait_timeout_ms: wait_timeout_ms as u64,
            read_timeout_ms: read_timeout_ms as u64,
            pin_key_timeout_secs: pin_key_timeout_secs as u64,
            reading: false,
        };
        assert(buffer@.pin_keys =~= Seq::<Seq<char>>::empty());
        buffer
    }

    /// How long to wait for the next bit: the read timeout while a read is in
    /// progress, the wait timeout otherwise.
    pub fn timeout_ms(&self) -> (ms: u64)
        ensures
            ms == if self@.reading { self@.read_timeout_ms } else { self@.wait_timeout_ms },
    {
        if self.reading {
            self.read_timeout_ms
        } else {
            self.wait_timeout_ms
        }
    }

    /// Takes what the wait for the next bit produced at time `now_ns`, and
    /// returns the authorization to make, if any. Waiting for a read, a bit
    /// starts one, a timeout drops stale typed keys, a lost sender changes
    /// nothing. During a read, a bit is added, a lost sender ends the read
    /// and keeps its bits, and a timeout closes it: see `after_closing` and
    /// `closing_request`.
    pub fn receive(&mut self, event: BufferEvent, now_ns: u128) -> (request: Option<AuthorizationRequest>)
        ensures
            final(self)@ == after_event(old(self)@, event, now_ns),
            request_view(request) == event_request(old(self)@, event),
    {
        proof {
            use_type_invariant(&*self);
        }
        if self.reading {
            self.read_data(event, now_ns)
        } else {
            self.wait_for_data(event, now_ns);
            None
        }
    }

    /// One step while no read is in progress.
    fn wait_for_data(&mut self, event: BufferEvent, now_ns: u128)
        requires
            !old(self)@.reading,
        ensures
            final(self)@ == after_event(old(self)@, event, now_ns),
    {
        proof {
            use_type_invariant(&*self);
        }
        match event {
            BufferEvent::Bit(bit) => {
                self.add_bit(bit);
                proof {
                    use_type_invariant(&*self);
                }
                self.reading = true;
            },
            BufferEvent::Timeout => {
                if self.pin_key_buffer_is_stale(now_ns) {
                    self.clear_pin_key_buffer();
                }
            },
            BufferEvent::Disconnected => {},
        }
    }

    /// One step of a read in progress.
    fn read_data(&mut self, event: BufferEvent, now_ns: u128) -> (request: Option<AuthorizationRequest>)
        requires
            old(self)@.reading,
        ensures
            final(self)@ == after_event(old(self)@, event, now_ns),
            request_view(request) == event_request(old(self)@, event),
    {
        proof {
            use_type_invariant(&*self);
        }
        match event {
            BufferEvent::Bit(bit) => {
                self.add_bit(bit);
                None
            },
            BufferEvent::Timeout => {
                let request = self.process_bit_buffer(now_ns);
                proof {
                    use_type_invariant(&*self);
                }
                self.reading = false;
                request
            },
            BufferEvent::Disconnected => {
                proof {
                    use_type_invariant(&*self);
                }
                self.reading = false;
                None
            },
        }
    }

    /// Closes the read: matches the bits against the keypad codes and acts on
    /// the key, or asks for the bits to be checked as a badge; then drops the bits.
    fn process_bit_buffer(&mut self, now_ns: u128) -> (request: Option<AuthorizationRequest>)
        ensures
            final(self)@ == after_closing(old(self)@, now_ns),
            request_view(request) == closing_request(old(self)@),
    {
        proof {
            use_type_invariant(&*self);
        }
        let bits = self.bits();
        let request = match self.key_mapper.key(bits.as_str()) {
            Some(key) => {
                proof {
                    lemma_key_kinds(bit_string(self@.bits));
                    reveal_strlit("#");
                    reveal_strlit("*");
                    assert("#"@ =~= seq!['#']);
                    assert("*"@ =~= seq!['*']);
                }
                if str_eq(key, "#") {
                    Some(self.authorize_pin())
                } else if str_eq(key, "*") {
                    self.clear_pin_key_buffer();
                    None
                } else {
                    self.add_pin_key(key, now_ns);
                    None
                }
            },
            None => Some(self.authorize_rfid()),
        };
        self.clear_bit_buffer();
        request
    }

    /// The request to check the typed PIN.
    fn authorize_pin(&self) -> (request: AuthorizationRequest)
        ensures
            request.variety == Variety::PIN,
            request.value@ == concat_all(self@.pin_keys),
    {
        AuthorizationRequest { variety: Variety::PIN, value: self.pin_keys() }
    }

    /// The request to check the collected bits as a badge.
    fn authorize_rfid(&self) -> (request: AuthorizationRequest)
        ensures
            request.variety == Variety::RFID,
            request.value@ == bit_string(self@.bits),
    {
        AuthorizationRequest { variety: Variety::RFID, value: self.bits() }
    }

    /// Takes the bouncer's answer to a request: the typed keys are dropped
    /// whatever it was, and the outcome says what the answer was.
    pub fn process_authorization(&mut self, result: Result<bool, AuthorizationError>) -> (outcome: AuthorizationOutcome)
        ensures
            final(self)@ == after_answer(old(self)@),
            outcome == outcome_of(result),
    {
        proof {
            use_type_invariant(&*self);
        }
        let outcome = match result {
            Ok(true) => AuthorizationOutcome::Approved,
            Ok(false) => AuthorizationOutcome::Denied,
            Err(_) => AuthorizationOutcome::Failed,
        };
        self.clear_pin_key_buffer();
        outcome
    }

    /// Adds a bit to the read in progress.
    pub fn add_bit(&mut self, bit: u8)
        ensures
            final(self)@ == (RfidBufferView { bits: old(self)@.bits.push(bit), ..old(self)@ }),
    {
        proof {
            use_type_invariant(&*self);
        }
        let mut bits = Vec::new();
        std::mem::swap(&mut bits, &mut self.bit_buffer);
        bits.push(bit);
        self.bit_buffer = bits;
        proof {
            assert(self@.pin_keys =~= old(self)@.pin_keys);
        }
    }

    /// The collected bits, each written in decimal, one after the other.
    pub fn bits(&self) -> (bits: String)
        ensures
            bits@ == bit_string(self@.bits),
    {
        let mut out = String::new();
        let n = self.bit_buffer.len();
        let mut i: usize = 0;
        while i < n
            invariant
                n == self.bit_buffer@.len(),
                i <= n,
                out@ == bit_string(self.bit_buffer@.take(i as int)),
            decreases n - i,
        {
            proof {
                assert(self.bit_buffer@.take(i + 1).drop_last() =~= self.bit_buffer@.take(i as int));
            }
            push_decimal(&mut out, self.bit_buffer[i]);
            i = i + 1;
        }
        proof {
            assert(self.bit_buffer@.take(n as int) =~= self.bit_buffer@);
        }
        out
    }

    /// Whether the typed keys are stale at time `now_ns`.
    pub fn pin_key_buffer_is_stale(&self, now_ns: u128) -> (stale: bool)
        ensures
            stale == is_stale(self@, now_ns),
    {
        if self.pin_key_buffer.len() == 0 {
            return false;
        }
        if now_ns <= self.pin_key_buffer_last_add_ns {
            return false;
        }
        let elapsed = now_ns - self.pin_key_buffer_last_add_ns;
        elapsed > (self.pin_key_timeout_secs as u128) * 1_000_000_000
    }

    /// Drops the bits of the read.
    pub fn clear_bit_buffer(&mut self)
        ensures
            final(self)@ == (RfidBufferView { bits: Seq::empty(), ..old(self)@ }),
    {
        proof {
            use_type_invariant(&*self);
        }
        self.bit_buffer = Vec::new();
        proof {
            assert(self@.pin_keys =~= old(self)@.pin_keys);
            assert(self@.bits =~= Seq::<u8>::empty());
        }
    }

    /// Adds a typed digit, noting `now_ns` as the time of the last key.
    fn add_pin_key(&mut self, pin_key: &'a str, now_ns: u128)
        requires
            is_digit_key(pin_key@),
        ensures
            final(self)@ == (RfidBufferView {
                pin_keys: old(self)@.pin_keys.push(pin_key@),
                last_add_ns: now_ns,
                ..old(self)@
            }),
    {
        proof {
            use_type_invariant(&*self);
        }
        let mut keys = Vec::new();
        std::mem::swap(&mut keys, &mut self.pin_key_buffer);
        keys.push(pin_key);
        self.pin_key_buffer = keys;
        self.pin_key_buffer_last_add_ns = now_ns;
        proof {
            assert(self@.pin_keys =~= old(self)@.pin_keys.push(pin_key@));
        }
    }

    /// The typed keys, one after the other: one digit per typed key, in the
    /// order they were typed, none dropped or merged.
    pub fn pin_keys(&self) -> (keys: String)
        ensures
            keys@ == concat_all(self@.pin_keys),
            keys@.len() == self@.pin_keys.len(),
            forall|i: int|
                0 <= i < self@.pin_keys.len() ==> is_digit_key(#[trigger] self@.pin_keys[i]) && keys@[i]
                    == self@.pin_keys[i][0],
    {
        proof {
            use_type_invariant(self);
            assert forall|i: int| 0 <= i < self@.pin_keys.len() implies is_digit_key(#[trigger] self@.pin_keys[i]) by {
                assert(self@.pin_keys[i] == self.pin_key_buffer@[i]@);
            }
            lemma_typed_pin(self@.pin_keys);
        }
        let mut out = String::new();
        let n = self.pin_key_buffer.len();
        let mut i: usize = 0;
        while i < n
            invariant
                n == self.pin_key_buffer@.len(),
                i <= n,
                out@ == concat_all(self@.pin_keys.take(i as int)),
            decreases n - i,
        {
            proof {
                assert(self@.pin_keys.take(i + 1).drop_last() =~= self@.pin_keys.take(i as int));
            }
            out.append(self.pin_key_buffer[i]);
            i = i + 1;
        }
        proof {
            assert(self@.pin_keys.take(n as int) =~= self@.pin_keys);
        }
        out
    }

    /// Drops the typed keys.
    pub fn clear_pin_key_buffer(&mut self)
        ensures
            final(self)@ == (RfidBufferView { pin_keys: Seq::empty(), ..old(self)@ }),
    {
        proof {
            use_type_invariant(&*self);
        }
        self.pin_key_buffer = Vec::new();
        proof {
            assert(self@.pin_keys =~= Seq::<Seq<char>>::empty());
        }
    }
}

} // verus!
