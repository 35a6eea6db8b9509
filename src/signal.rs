use vstd::prelude::*;
use vstd::arithmetic::power2::{
    pow2, lemma_pow2_unfold, lemma_pow2_strictly_increases, lemma2_to64, lemma2_to64_rest,
};
use vstd::arithmetic::div_mod::lemma_div_multiples_vanish;
use crate::bits::{field, load_field, store_field, same_outside};
use crate::coordinator::SubscriptionState;
use crate::gate::{emits, should_emit};
use crate::types::{BcmOpCode, CanFrame, DataStatus, FrameView};

verus! {

/// Largest frame, in bits, that a signal may be laid out in.
pub const MAX_FRAME_BITS: usize = 512;

/// Order in which the bytes of a frame are taken before bits are numbered.
#[derive(Clone, Copy, Debug, PartialEq, Eq, Structural)]
pub enum ByteOrder {
    LittleEndian,
    BigEndian,
}

/// How the raw bits of a signal are read.
#[derive(Clone, Copy, Debug, PartialEq, Eq, Structural)]
pub enum ValueKind {
    /// Unsigned integer, scaled by factor and offset.
    Unsigned,
    /// Two's complement integer of the field's width, scaled by factor and offset.
    Signed,
    /// Zero is false, anything else true.
    Boolean,
    /// Raw value, with names for some of its values.
    Enumerated,
}

/// A named raw value of an enumerated signal. A variant that is not settable
/// stands for a reserved code: it is read back under its name, but writing
/// it is refused.
#[derive(Clone, Debug)]
pub struct EnumVariant {
    pub name: String,
    pub raw: u64,
    pub settable: bool,
}

/// Layout and meaning of one signal within its message's frame.
///
/// Numeric values are fixed-point: a raw field value `raw` stands for the
/// value `raw * factor + offset`, counted in units of `1 / scale` of the
/// physical quantity. Bounds are in the same units.
#[derive(Clone, Debug)]
pub struct SignalDef {
    pub name: String,
    pub start: usize,
    pub width: usize,
    pub order: ByteOrder,
    pub kind: ValueKind,
    pub factor: u32,
    pub offset: i64,
    pub scale: u32,
    pub min: Option<i128>,
    pub max: Option<i128>,
    pub variants: Vec<EnumVariant>,
}

/// A decoded signal value.
#[derive(Clone, Copy, Debug, PartialEq, Eq, Structural)]
pub enum SignalValue {
    Number(i128),
    Flag(bool),
    Enumerated(u64),
}

/// An enumerated value seen through its names: the index of the variant that
/// bears it, or the raw value that no variant names.
#[derive(Clone, Copy, Debug, PartialEq, Eq, Structural)]
pub enum Variant {
    Named(usize),
    Other(u64),
}

/// Why a value could not be written into a frame.
#[derive(Clone, Copy, Debug, PartialEq, Eq, Structural)]
pub enum CodecError {
    /// Outside the declared bounds, not representable in the field, or a
    /// reserved variant.
    OutOfRange,
    /// A value of another kind than the signal's.
    WrongType,
}

/// `a / f` rounded toward zero.
pub open spec fn trunc_div(a: int, f: int) -> int {
    if a >= 0 {
        a / f
    } else {
        -((-a) / f)
    }
}

impl SignalDef {
    pub open spec fn big_endian(&self) -> bool {
        self.order == ByteOrder::BigEndian
    }

    pub open spec fn is_numeric(&self) -> bool {
        self.kind == ValueKind::Unsigned || self.kind == ValueKind::Signed
    }

    /// A usable layout: a field of 1 to 64 bits inside the largest frame, a
    /// positive factor and scale, and distinct variant codes that fit the field.
    pub open spec fn wf(&self) -> bool {
        &&& 1 <= self.width <= 64
        &&& self.start + self.width <= MAX_FRAME_BITS
        &&& self.factor >= 1
        &&& self.scale >= 1
        &&& forall|i: int|
            0 <= i < self.variants@.len() ==> (#[trigger] self.variants@[i]).raw < pow2(
                self.width as nat,
            )
        &&& forall|i: int, j: int|
            0 <= i < self.variants@.len() && 0 <= j < self.variants@.len() && i != j
                ==> (#[trigger] self.variants@[i]).raw != (#[trigger] self.variants@[j]).raw
    }

    /// The field lies within a frame of `len` bytes.
    pub open spec fn fits(&self, len: nat) -> bool {
        self.start + self.width <= 8 * len
    }

    /// Smallest raw value of the field.
    pub open spec fn raw_min(&self) -> int {
        if self.kind == ValueKind::Signed {
            -pow2((self.width - 1) as nat)
        } else {
            0
        }
    }

    /// One past the largest raw value of the field.
    pub open spec fn raw_end(&self) -> int {
        if self.kind == ValueKind::Signed {
            pow2((self.width - 1) as nat) as int
        } else {
            pow2(self.width as nat) as int
        }
    }

    /// Raw value that the field's bits `u` stand for.
    pub open spec fn raw_of_bits(&self, u: nat) -> int {
        if self.kind == ValueKind::Signed && u >= pow2((self.width - 1) as nat) {
            u - pow2(self.width as nat)
        } else {
            u as int
        }
    }

    /// Bits of the field that stand for `raw`.
    pub open spec fn bits_of_raw(&self, raw: int) -> int {
        if raw < 0 {
            raw + pow2(self.width as nat)
        } else {
            raw
        }
    }

    /// Raw value held in the frame `data`.
    pub open spec fn raw_in(&self, data: Seq<u8>) -> int {
        self.raw_of_bits(field(data, self.big_endian(), self.start as int, self.width as nat))
    }

    /// Value that the raw value `raw` stands for.
    pub open spec fn physical(&self, raw: int) -> SignalValue {
        match self.kind {
            ValueKind::Boolean => SignalValue::Flag(raw != 0),
            ValueKind::Enumerated => SignalValue::Enumerated(raw as u64),
            _ => SignalValue::Number((raw * self.factor + self.offset) as i128),
        }
    }

    /// Value that the frame `data` holds.
    pub open spec fn decoded(&self, data: Seq<u8>) -> SignalValue {
        self.physical(self.raw_in(data))
    }

    /// `x` lies within the declared bounds.
    pub open spec fn within_bounds(&self, x: int) -> bool {
        &&& match self.min {
            Some(m) => m <= x,
            None => true,
        }
        &&& match self.max {
            Some(m) => x <= m,
            None => true,
        }
    }

    /// `v` is of the signal's kind.
    pub open spec fn accepts_kind(&self, v: SignalValue) -> bool {
        match v {
            SignalValue::Number(_) => self.is_numeric(),
            SignalValue::Flag(_) => self.kind == ValueKind::Boolean,
            SignalValue::Enumerated(_) => self.kind == ValueKind::Enumerated,
        }
    }

    /// Raw value written for `v`, or `None` where `v` is refused.
    pub open spec fn raw_for(&self, v: SignalValue) -> Option<int> {
        match v {
            SignalValue::Number(x) => {
                let raw = trunc_div(x - self.offset, self.factor as int);
                if self.is_numeric() && self.within_bounds(x as int) && self.raw_min() <= raw
                    < self.raw_end() {
                    Some(raw)
                } else {
                    None
                }
            },
            SignalValue::Flag(b) => {
                if self.kind == ValueKind::Boolean {
                    Some(
                        if b {
                            1int
                        } else {
                            0int
                        },
                    )
                } else {
                    None
                }
            },
            SignalValue::Enumerated(u) => {
                if self.kind == ValueKind::Enumerated && u < pow2(self.width as nat) {
                    Some(u as int)
                } else {
                    None
                }
            },
        }
    }

    /// What `encode` returns for `v`.
    pub open spec fn encode_result(&self, v: SignalValue) -> Result<(), CodecError> {
        if self.raw_for(v) is Some {
            Ok(())
        } else if !self.accepts_kind(v) {
            Err(CodecError::WrongType)
        } else {
            Err(CodecError::OutOfRange)
        }
    }

    /// The value that the signal holds after a reset.
    pub open spec fn zero(&self) -> SignalValue {
        match self.kind {
            ValueKind::Boolean => SignalValue::Flag(false),
            ValueKind::Enumerated => SignalValue::Enumerated(0),
            _ => SignalValue::Number(0),
        }
    }

    /// How the names of the variants read the raw value `raw`.
    pub open spec fn variant_of(&self, raw: u64) -> Variant {
        if exists|i: int| 0 <= i < self.variants@.len() && (#[trigger] self.variants@[i]).raw == raw {
            Variant::Named(
                (choose|i: int|
                    0 <= i < self.variants@.len() && (#[trigger] self.variants@[i]).raw
                        == raw) as usize,
            )
        } else {
            Variant::Other(raw)
        }
    }

    fn pow2_of(w: usize) -> (r: u128)
        requires
            w <= 64,
        ensures
            r == pow2(w as nat),
    {
        let mut r: u128 = 1;
        let mut i: usize = 0;
        proof {
            lemma2_to64();
        }
        while i < w
            invariant
                i <= w <= 64,
                r == pow2(i as nat),
            decreases w - i,
        {
            proof {
                lemma_pow2_unfold((i + 1) as nat);
                lemma2_to64();
                lemma2_to64_rest();
                if i + 1 < 64 {
                    lemma_pow2_strictly_increases((i + 1) as nat, 64);
                }
            }
            r = r * 2;
            i += 1;
        }
        r
    }

    /// Reads the signal's value from a frame.
    pub fn decode(&self, data: &[u8]) -> (r: SignalValue)
        requires
            self.wf(),
            self.fits(data@.len()),
        ensures
            r == self.decoded(data@),
    {
        let u = load_field(data, self.order == ByteOrder::BigEndian, self.start, self.width);
        let full = Self::pow2_of(self.width);
        let half = Self::pow2_of(self.width - 1);
        proof {
            lemma2_to64();
            lemma2_to64_rest();
            lemma_pow2_unfold(self.width as nat);
        }
        let raw: i128 = if self.kind == ValueKind::Signed && u as u128 >= half {
            u as i128 - full as i128
        } else {
            u as i128
        };
        assert(raw == self.raw_in(data@));
        match self.kind {
            ValueKind::Boolean => SignalValue::Flag(raw != 0),
            ValueKind::Enumerated => SignalValue::Enumerated(raw as u64),
            _ => {
                let f = self.factor as i128;
                proof {
                    assert(-0x1_0000_0000_0000_0000 <= raw < 0x1_0000_0000_0000_0000);
                    assert(-0x1_0000_0000_0000_0000_0000_0000 <= raw * f
                        <= 0x1_0000_0000_0000_0000_0000_0000) by (nonlinear_arith)
                        requires
                            -0x1_0000_0000_0000_0000 <= raw < 0x1_0000_0000_0000_0000,
                            0 < f < 0x1_0000_0000,
                    ;
                }
                SignalValue::Number(raw * f + self.offset as i128)
            },
        }
    }

    /// Raw value to write for `v`, or why it is refused.
    fn raw_for_value(&self, v: SignalValue) -> (r: Result<i128, CodecError>)
        requires
            self.wf(),
        ensures
            match r {
                Ok(raw) => self.raw_for(v) == Some(raw as int),
                Err(e) => self.raw_for(v) is None && (e == CodecError::WrongType <==> !self.accepts_kind(
                    v,
                )),
            },
    {
        let full = Self::pow2_of(self.width);
        let half = Self::pow2_of(self.width - 1);
        proof {
            lemma2_to64();
            lemma2_to64_rest();
            lemma_pow2_unfold(self.width as nat);
        }
        match v {
            SignalValue::Number(x) => {
                if !(self.kind == ValueKind::Unsigned || self.kind == ValueKind::Signed) {
                    return Err(CodecError::WrongType);
                }
                let below = match self.min {
                    Some(m) => x < m,
                    None => false,
                };
                let above = match self.max {
                    Some(m) => x > m,
                    None => false,
                };
                if below || above {
                    return Err(CodecError::OutOfRange);
                }
                // Far outside what any field of 64 bits can stand for.
                if x > 0x1_0000_0000_0000_0000_0000_0000 || x < -0x1_0000_0000_0000_0000_0000_0000 {
                    proof {
                        let raw = trunc_div(x - self.offset, self.factor as int);
                        assert(raw < -0x1_0000_0000_0000_0000 || raw > 0x1_0000_0000_0000_0000)
                            by (nonlinear_arith)
                            requires
                                raw == trunc_div(x - self.offset, self.factor as int),
                                x > 0x1_0000_0000_0000_0000_0000_0000 || x
                                    < -0x1_0000_0000_0000_0000_0000_0000,
                                -0x8000_0000_0000_0000 <= self.offset < 0x8000_0000_0000_0000,
                                1 <= self.factor < 0x1_0000_0000,
                        ;
                    }
                    return Err(CodecError::OutOfRange);
                }
                let d: i128 = x - self.offset as i128;
                let f = self.factor as u128;
                let raw: i128 = if d >= 0 {
                    (d as u128 / f) as i128
                } else {
                    -(((-d) as u128 / f) as i128)
                };
                let lo: i128 = if self.kind == ValueKind::Signed {
                    -(half as i128)
                } else {
                    0
                };
                let hi: i128 = if self.kind == ValueKind::Signed {
                    half as i128
                } else {
                    full as i128
                };
                if raw < lo || raw >= hi {
                    Err(CodecError::OutOfRange)
                } else {
                    Ok(raw)
                }
            },
            SignalValue::Flag(b) => {
                if self.kind != ValueKind::Boolean {
                    return Err(CodecError::WrongType);
                }
                Ok(
                    if b {
                        1
                    } else {
                        0
                    },
                )
            },
            SignalValue::Enumerated(u) => {
                if self.kind != ValueKind::Enumerated {
                    return Err(CodecError::WrongType);
                }
                if u as u128 >= full {
                    Err(CodecError::OutOfRange)
                } else {
                    Ok(u as i128)
                }
            },
        }
    }

    /// Writes `v` into the signal's field of `data`, leaving the other bits
    /// as they were; refuses a value of another kind, outside the bounds, or
    /// not representable in the field, and leaves `data` alone then.
    pub fn encode(&self, v: SignalValue, data: &mut Vec<u8>) -> (r: Result<(), CodecError>)
        requires
            self.wf(),
            self.fits(old(data)@.len()),
        ensures
            r == self.encode_result(v),
            r is Ok ==> self.raw_in(final(data)@) == self.raw_for(v)->0 && same_outside(
                old(data)@,
                final(data)@,
                self.big_endian(),
                self.start as int,
                self.width as int,
            ),
            r is Err ==> final(data)@ == old(data)@,
    {
        let raw = match self.raw_for_value(v) {
            Ok(raw) => raw,
            Err(e) => return Err(e),
        };
        let full = Self::pow2_of(self.width);
        proof {
            lemma2_to64();
            lemma2_to64_rest();
            lemma_pow2_unfold(self.width as nat);
            if self.width < 64 {
                lemma_pow2_strictly_increases(self.width as nat, 64);
            }
        }
        let bits: u64 = if raw < 0 {
            (raw + full as i128) as u64
        } else {
            raw as u64
        };
        assert(bits == self.bits_of_raw(raw as int));
        store_field(data, self.order == ByteOrder::BigEndian, self.start, self.width, bits);
        Ok(())
    }

    /// Checks that the layout is usable (see `wf`).
    pub fn is_valid(&self) -> (r: bool)
        ensures
            r == self.wf(),
    {
        if self.width < 1 || self.width > 64 || self.start > MAX_FRAME_BITS || self.width
            > MAX_FRAME_BITS - self.start || self.factor < 1 || self.scale < 1 {
            return false;
        }
        let full = Self::pow2_of(self.width);
        let n = self.variants.len();
        let mut i: usize = 0;
        while i < n
            invariant
                1 <= self.width <= 64,
                full == pow2(self.width as nat),
                n == self.variants@.len(),
                i <= n,
                forall|k: int| 0 <= k < i ==> (#[trigger] self.variants@[k]).raw < pow2(self.width as nat),
                forall|a: int, b: int|
                    0 <= a < i && 0 <= b < n && a != b ==> (#[trigger] self.variants@[a]).raw
                        != (#[trigger] self.variants@[b]).raw,
            decreases n - i,
        {
            if self.variants[i].raw as u128 >= full {
                return false;
            }
            let mut j: usize = 0;
            while j < n
                invariant
                    n == self.variants@.len(),
                    i < n,
                    j <= n,
                    forall|b: int|
                        0 <= b < j && b != i ==> (#[trigger] self.variants@[b]).raw
                            != self.variants@[i as int].raw,
                decreases n - j,
            {
                if j != i && self.variants[j].raw == self.variants[i].raw {
                    return false;
                }
                j += 1;
            }
            i += 1;
        }
        true
    }

    /// Index of the variant named for `raw`, if any.
    pub fn variant(&self, raw: u64) -> (r: Variant)
        requires
            self.wf(),
        ensures
            r == self.variant_of(raw),
    {
        let n = self.variants.len();
        let mut i: usize = 0;
        while i < n
            invariant
                self.wf(),
                n == self.variants@.len(),
                i <= n,
                forall|k: int| 0 <= k < i ==> (#[trigger] self.variants@[k]).raw != raw,
            decreases n - i,
        {
            if self.variants[i].raw == raw {
                proof {
                    assert(0 <= i < self.variants@.len() && self.variants@[i as int].raw == raw);
                    let c = choose|k: int|
                        0 <= k < self.variants@.len() && (#[trigger] self.variants@[k]).raw == raw;
                    assert(self.variants@[i as int].raw == raw);
                    assert(self.variants@[c].raw == raw);
                    assert(c == i);
                }
                return Variant::Named(i);
            }
            i += 1;
        }
        Variant::Other(raw)
    }
}

/// Round trip: a value that the field represents exactly at the signal's
/// factor, offset and width, and that lies within the declared bounds, is
/// accepted for writing, and any frame whose field holds what is written for
/// it reads back as that very value.
pub proof fn lemma_round_trip(def: SignalDef, raw: int, data: Seq<u8>)
    requires
        def.wf(),
        def.raw_min() <= raw < def.raw_end(),
        def.is_numeric() ==> def.within_bounds(raw * def.factor + def.offset),
        def.raw_in(data) == def.raw_for(def.physical(raw))->0,
    ensures
        def.raw_for(def.physical(raw)) is Some,
        def.decoded(data) == def.physical(raw),
{
    lemma2_to64();
    lemma2_to64_rest();
    if def.width < 64 {
        lemma_pow2_strictly_increases(def.width as nat, 64);
    }
    lemma_pow2_unfold(def.width as nat);
    if def.is_numeric() {
        let f = def.factor as int;
        assert(-0x1_0000_0000_0000_0000 <= raw < 0x1_0000_0000_0000_0000);
        assert(-0x1_0000_0000_0000_0000_0000_0000 <= raw * f <= 0x1_0000_0000_0000_0000_0000_0000)
            by (nonlinear_arith)
            requires
                -0x1_0000_0000_0000_0000 <= raw < 0x1_0000_0000_0000_0000,
                0 < f < 0x1_0000_0000,
        ;
        let x = (raw * f + def.offset) as i128;
        assert(x - def.offset == raw * f);
        if raw >= 0 {
            lemma_div_multiples_vanish(raw, f);
            assert(f * raw == raw * f) by (nonlinear_arith);
        } else {
            lemma_div_multiples_vanish(-raw, f);
            assert(f * (-raw) == -(raw * f)) by (nonlinear_arith);
        }
        assert(trunc_div(x - def.offset, f) == raw);
    }
}

/// Status that a signal holding `value` takes on `frame`.
pub open spec fn status_after(def: SignalDef, value: SignalValue, frame: FrameView) -> DataStatus {
    match frame.opcode {
        BcmOpCode::RxChanged => {
            if !def.fits(frame.data.len()) {
                DataStatus::Error
            } else if def.decoded(frame.data) != value {
                DataStatus::Updated
            } else {
                DataStatus::Unchanged
            }
        },
        BcmOpCode::RxTimeout => DataStatus::Timeout,
        _ => DataStatus::Error,
    }
}

/// Value that a signal holding `value` holds after `frame`.
pub open spec fn value_after(def: SignalDef, value: SignalValue, frame: FrameView) -> SignalValue {
    if frame.opcode == BcmOpCode::RxChanged && def.fits(frame.data.len()) {
        def.decoded(frame.data)
    } else {
        value
    }
}

/// `after` is the signal `before` once `frame` is taken in, `r` the count
/// returned to the message.
pub open spec fn signal_updated(before: Signal, after: Signal, frame: FrameView, r: i32) -> bool {
    &&& after.def == before.def
    &&& after.value == value_after(before.def, before.value, frame)
    &&& after.status == status_after(before.def, before.value, frame)
    &&& after.stamp == (if after.status == DataStatus::Updated {
        frame.stamp
    } else {
        before.stamp
    })
    &&& match before.listener {
        None => r == 0 && after.listener is None && !after.publish_due,
        Some(info) => {
            let due = emits(after.status, after.stamp, info.stamp, info.rate, info.watchdog, info.flag);
            &&& r == info.listeners
            &&& after.publish_due == due
            &&& after.listener == Some(
                if due {
                    SubscriptionState { stamp: after.stamp, ..info }
                } else {
                    info
                },
            )
        },
    }
}

/// One signal of a message: its layout, the value last decoded, its status,
/// the stamp of its last change, and the throttling state of its listener,
/// if one is attached. `publish_due` tells that the last update passed the
/// listener's gate and awaits publication.
#[derive(Clone, Debug)]
pub struct Signal {
    pub def: SignalDef,
    pub value: SignalValue,
    pub status: DataStatus,
    pub stamp: u64,
    pub listener: Option<SubscriptionState>,
    pub publish_due: bool,
}

impl Signal {
    pub open spec fn wf(&self) -> bool {
        self.def.wf()
    }

    /// The state that `reset` leaves: the layout and listener kept, the
    /// value zero, status `Unset`, stamp 0.
    pub open spec fn reset_state(&self) -> Signal {
        Signal {
            def: self.def,
            value: self.def.zero(),
            status: DataStatus::Unset,
            stamp: 0,
            listener: self.listener,
            publish_due: false,
        }
    }

    /// A signal that has seen no frame yet.
    pub fn new(def: SignalDef) -> (r: Signal)
        requires
            def.wf(),
        ensures
            r.wf(),
            r.def == def,
            r.value == def.zero(),
            r.status == DataStatus::Unset,
            r.stamp == 0,
            r.listener is None,
            !r.publish_due,
    {
        let value = match def.kind {
            ValueKind::Boolean => SignalValue::Flag(false),
            ValueKind::Enumerated => SignalValue::Enumerated(0),
            _ => SignalValue::Number(0),
        };
        Signal {
            def,
            value,
            status: DataStatus::Unset,
            stamp: 0,
            listener: None,
            publish_due: false,
        }
    }

    pub fn get_name(&self) -> (r: &String)
        ensures
            r == self.def.name,
    {
        &self.def.name
    }

    pub fn get_value(&self) -> (r: SignalValue)
        ensures
            r == self.value,
    {
        self.value
    }

    pub fn get_status(&self) -> (r: DataStatus)
        ensures
            r == self.status,
    {
        self.status
    }

    pub fn get_stamp(&self) -> (r: u64)
        ensures
            r == self.stamp,
    {
        self.stamp
    }

    /// The current enumerated value through the variant names; `None` for a
    /// signal of another kind.
    pub fn get_variant(&self) -> (r: Option<Variant>)
        requires
            self.wf(),
        ensures
            match self.value {
                SignalValue::Enumerated(u) => r == Some(self.def.variant_of(u)),
                _ => r is None,
            },
    {
        match self.value {
            SignalValue::Enumerated(u) => Some(self.def.variant(u)),
            _ => None,
        }
    }

    /// Attaches a listener with the given throttling state, replacing any
    /// earlier one.
    pub fn set_callback(&mut self, listener: SubscriptionState)
        ensures
            *final(self) == (Signal { listener: Some(listener), ..*old(self) }),
    {
        self.listener = Some(listener);
    }

    /// Returns the signal to its state before any frame.
    pub fn reset(&mut self)
        ensures
            *final(self) == old(self).reset_state(),
    {
        self.stamp = 0;
        self.value = match self.def.kind {
            ValueKind::Boolean => SignalValue::Flag(false),
            ValueKind::Enumerated => SignalValue::Enumerated(0),
            _ => SignalValue::Number(0),
        };
        self.status = DataStatus::Unset;
        self.publish_due = false;
    }

    /// Takes in a frame of the signal's message. A changed-data frame is
    /// decoded: a value other than the one held is stored with the frame's
    /// stamp and status `Updated`, an equal one gives `Unchanged`; a frame too
    /// short for the field gives `Error`. A timeout frame gives `Timeout`, any
    /// other opcode `Error`. Then the listener, if any, is consulted: when its
    /// gate lets the update through, its stamp becomes the signal's and a
    /// publication is due. Returns the listener's count, 0 without one.
    pub fn update(&mut self, frame: &CanFrame) -> (r: i32)
        requires
            old(self).wf(),
        ensures
            signal_updated(*old(self), *final(self), frame@, r),
    {
        match frame.opcode {
            BcmOpCode::RxChanged => {
                let end = self.def.start + self.def.width;
                if frame.data.len() < 64 && end > 8 * frame.data.len() {
                    self.status = DataStatus::Error;
                } else {
                    let v = self.def.decode(frame.data.as_slice());
                    if v != self.value {
                        self.value = v;
                        self.status = DataStatus::Updated;
                        self.stamp = frame.stamp;
                    } else {
                        self.status = DataStatus::Unchanged;
                    }
                }
            },
            BcmOpCode::RxTimeout => {
                self.status = DataStatus::Timeout;
            },
            _ => {
                self.status = DataStatus::Error;
            },
        }
        match self.listener {
            None => {
                self.publish_due = false;
                0
            },
            Some(info) => {
                let due = should_emit(
                    self.status,
                    self.stamp,
                    info.stamp,
                    info.rate,
                    info.watchdog,
                    info.flag,
                );
                if due {
                    self.listener = Some(SubscriptionState { stamp: self.stamp, ..info });
                }
                self.publish_due = due;
                info.listeners
            },
        }
    }

    /// Records the listener count that the publication of this signal
    /// reported; the publication is no longer due.
    pub fn record_publication(&mut self, listeners: i32)
        ensures
            final(self).def == old(self).def,
            final(self).value == old(self).value,
            final(self).status == old(self).status,
            final(self).stamp == old(self).stamp,
            !final(self).publish_due,
            final(self).listener == match old(self).listener {
                Some(info) => Some(SubscriptionState { listeners, ..info }),
                None => None,
            },
    {
        if let Some(info) = self.listener {
            self.listener = Some(SubscriptionState { listeners, ..info });
        }
        self.publish_due = false;
    }

    /// Writes `value` into the signal's field of `data` (see
    /// [`SignalDef::encode`]); the signal itself is left alone.
    pub fn set_value(&self, value: SignalValue, data: &mut Vec<u8>) -> (r: Result<(), CodecError>)
        requires
            self.wf(),
            self.def.fits(old(data)@.len()),
        ensures
            r == self.def.encode_result(value),
            r is Ok ==> self.def.raw_in(final(data)@) == self.def.raw_for(value)->0 && same_outside(
                old(data)@,
                final(data)@,
                self.def.big_endian(),
                self.def.start as int,
                self.def.width as int,
            ),
            r is Err ==> final(data)@ == old(data)@,
    {
        self.def.encode(value, data)
    }

    /// Writes an enumerated value given through its names. A variant that is
    /// not settable, or an index past the variants, is refused as out of range.
    pub fn set_variant(&self, variant: Variant, data: &mut Vec<u8>) -> (r: Result<(), CodecError>)
        requires
            self.wf(),
            self.def.fits(old(data)@.len()),
        ensures
            ({
                let raw = match variant {
                    Variant::Named(i) => if i < self.def.variants@.len()
                        && self.def.variants@[i as int].settable {
                        Some(self.def.variants@[i as int].raw)
                    } else {
                        None
                    },
                    Variant::Other(u) => Some(u),
                };
                match raw {
                    Some(u) => r == self.def.encode_result(SignalValue::Enumerated(u)) && (r is Ok
                        ==> self.def.raw_in(final(data)@) == u && same_outside(
                        old(data)@,
                        final(data)@,
                        self.def.big_endian(),
                        self.def.start as int,
                        self.def.width as int,
                    )) && (r is Err ==> final(data)@ == old(data)@),
                    None => r == Err::<(), CodecError>(CodecError::OutOfRange) && final(data)@
                        == old(data)@,
                }
            }),
    {
        match variant {
            Variant::Named(i) => {
                if i < self.def.variants.len() && self.def.variants[i].settable {
                    let raw = self.def.variants[i].raw;
                    self.def.encode(SignalValue::Enumerated(raw), data)
                } else {
                    Err(CodecError::OutOfRange)
                }
            },
            Variant::Other(u) => self.def.encode(SignalValue::Enumerated(u), data),
        }
    }
}

/// Resetting twice leaves the signal as resetting once does: `Unset`, zero
/// value, zero stamp.
pub proof fn lemma_reset_idempotent(s: Signal)
    ensures
        s.reset_state().reset_state() == s.reset_state(),
        s.reset_state().status == DataStatus::Unset,
        s.reset_state().value == s.def.zero(),
        s.reset_state().stamp == 0,
{
}

/// Feeding one changed-data frame twice: the second time the status is
/// `Unchanged`, and the first time it is `Updated` exactly when the frame
/// brings a value other than the one held.
pub proof fn lemma_change_detection(def: SignalDef, value: SignalValue, frame: FrameView)
    requires
        frame.opcode == BcmOpCode::RxChanged,
        def.fits(frame.data.len()),
    ensures
        status_after(def, value, frame) == DataStatus::Updated <==> def.decoded(frame.data)
            != value,
        status_after(def, value_after(def, value, frame), frame) == DataStatus::Unchanged,
{
}

} // verus!
