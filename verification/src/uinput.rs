//! The records of the uinput interface and the commands given to it.

use vstd::prelude::*;

use crate::bytes::{
    lemma_word16_is_read_back, lemma_word32_is_read_back, lemma_words_of_signed_numbers, push_bytes,
    push_i32, push_u16, push_u32, push_zeros, word16_at, word16_bytes, word32, word32_at,
    word32_bytes, zeros, ByteOrder,
};
use crate::codes::{UI_ABS_SETUP, UI_DEV_CREATE, UI_DEV_DESTROY, UI_DEV_SETUP};

verus! {

/// How a device identifies itself.
#[derive(Clone, Copy, Debug, PartialEq, Eq, Structural)]
pub struct InputId {
    pub bustype: u16,
    pub vendor: u16,
    pub product: u16,
    pub version: u16,
}

/// The identity and name of a virtual device.
#[derive(Debug, PartialEq, Eq)]
pub struct UinputSetup {
    pub id: InputId,
    pub name: [u8; 80],
    pub ff_effects_max: u32,
}

/// The range and resolution of an absolute axis.
#[derive(Clone, Copy, Debug, PartialEq, Eq, Structural)]
pub struct InputAbsInfo {
    pub value: i32,
    pub minimum: i32,
    pub maximum: i32,
    pub fuzz: i32,
    pub flat: i32,
    pub resolution: i32,
}

/// An absolute axis and its range.
#[derive(Clone, Copy, Debug, PartialEq, Eq, Structural)]
pub struct UinputAbsSetup {
    pub code: u16,
    pub absinfo: InputAbsInfo,
}

impl UinputSetup {
    /// The record as the kernel reads it: 92 bytes, without padding.
    pub open spec fn record(self, order: ByteOrder) -> Seq<u8> {
        word16_bytes(order, self.id.bustype as int) + word16_bytes(order, self.id.vendor as int)
            + word16_bytes(order, self.id.product as int) + word16_bytes(
            order,
            self.id.version as int,
        ) + self.name@ + word32_bytes(order, self.ff_effects_max as int)
    }

    /// Lays the record out in memory.
    pub fn to_record(&self, order: ByteOrder) -> (bytes: Vec<u8>)
        ensures
            bytes@ == self.record(order),
    {
        let mut bytes: Vec<u8> = Vec::new();
        push_u16(&mut bytes, order, self.id.bustype);
        push_u16(&mut bytes, order, self.id.vendor);
        push_u16(&mut bytes, order, self.id.product);
        push_u16(&mut bytes, order, self.id.version);
        push_bytes(&mut bytes, self.name.as_slice());
        push_u32(&mut bytes, order, self.ff_effects_max);
        bytes
    }
}

impl UinputAbsSetup {
    /// The record as the kernel reads it: 28 bytes, with two bytes of padding
    /// behind the code.
    pub open spec fn record(self, order: ByteOrder) -> Seq<u8> {
        word16_bytes(order, self.code as int) + zeros(2) + word32_bytes(
            order,
            word32(self.absinfo.value as int),
        ) + word32_bytes(order, word32(self.absinfo.minimum as int)) + word32_bytes(
            order,
            word32(self.absinfo.maximum as int),
        ) + word32_bytes(order, word32(self.absinfo.fuzz as int)) + word32_bytes(
            order,
            word32(self.absinfo.flat as int),
        ) + word32_bytes(order, word32(self.absinfo.resolution as int))
    }

    /// Lays the record out in memory.
    pub fn to_record(&self, order: ByteOrder) -> (bytes: Vec<u8>)
        ensures
            bytes@ == self.record(order),
    {
        let mut bytes: Vec<u8> = Vec::new();
        push_u16(&mut bytes, order, self.code);
        push_zeros(&mut bytes, 2);
        push_i32(&mut bytes, order, self.absinfo.value);
        push_i32(&mut bytes, order, self.absinfo.minimum);
        push_i32(&mut bytes, order, self.absinfo.maximum);
        push_i32(&mut bytes, order, self.absinfo.fuzz);
        push_i32(&mut bytes, order, self.absinfo.flat);
        push_i32(&mut bytes, order, self.absinfo.resolution);
        bytes
    }
}

/// A command given to the uinput interface.
#[derive(Debug, PartialEq, Eq)]
pub enum DeviceCommand {
    /// Open the interface for reading and writing, without blocking.
    Open,
    /// Enable an event type or code.
    SetBit { request: u32, value: u32 },
    /// Declare the range of an axis.
    AbsSetup(UinputAbsSetup),
    /// Declare the identity of the device.
    DevSetup(UinputSetup),
    /// Create the device.
    Create,
    /// Destroy the device.
    Destroy,
}

/// What goes with a request code.
#[derive(Debug, PartialEq, Eq)]
pub enum Argument {
    Nothing,
    Value(u32),
    /// The bytes of a record, passed by address.
    Record(Vec<u8>),
}

impl DeviceCommand {
    /// The request code of the command, unless it is to open the interface.
    pub open spec fn request(self) -> Option<u32> {
        match self {
            DeviceCommand::Open => None,
            DeviceCommand::SetBit { request, value } => Some(request),
            DeviceCommand::AbsSetup(setup) => Some(UI_ABS_SETUP),
            DeviceCommand::DevSetup(setup) => Some(UI_DEV_SETUP),
            DeviceCommand::Create => Some(UI_DEV_CREATE),
            DeviceCommand::Destroy => Some(UI_DEV_DESTROY),
        }
    }

    /// Whether `argument` is what goes with the request code.
    pub open spec fn is_argument(self, argument: Argument, order: ByteOrder) -> bool {
        match self {
            DeviceCommand::SetBit { request, value } => argument == Argument::Value(value),
            DeviceCommand::AbsSetup(setup) => argument matches Argument::Record(bytes)
                && bytes@ == setup.record(order),
            DeviceCommand::DevSetup(setup) => argument matches Argument::Record(bytes)
                && bytes@ == setup.record(order),
            _ => argument == Argument::Nothing,
        }
    }

    /// The request code and argument of the command, unless it is to open the
    /// interface.
    pub fn ioctl(&self, order: ByteOrder) -> (call: Option<(u32, Argument)>)
        ensures
            call is Some <==> self.request() is Some,
            call matches Some((request, argument)) ==> Some(request) == self.request()
                && self.is_argument(argument, order),
    {
        match self {
            DeviceCommand::Open => None,
            DeviceCommand::SetBit { request, value } => Some((*request, Argument::Value(*value))),
            DeviceCommand::AbsSetup(setup) => Some(
                (UI_ABS_SETUP, Argument::Record(setup.to_record(order))),
            ),
            DeviceCommand::DevSetup(setup) => Some(
                (UI_DEV_SETUP, Argument::Record(setup.to_record(order))),
            ),
            DeviceCommand::Create => Some((UI_DEV_CREATE, Argument::Nothing)),
            DeviceCommand::Destroy => Some((UI_DEV_DESTROY, Argument::Nothing)),
        }
    }
}

/// The size that a request code announces for its argument.
pub open spec fn announced_size(request: u32) -> int {
    request as int / 0x1_0000 % 0x4000
}

/// A record has the size that its request code announces.
pub proof fn lemma_records_have_announced_size(
    command: DeviceCommand,
    argument: Argument,
    order: ByteOrder,
)
    requires
        command.is_argument(argument, order),
    ensures
        argument matches Argument::Record(bytes) ==> command.request() is Some && bytes@.len()
            == announced_size(command.request()->0),
{
}

/// The record of an axis can be read back: the code, two bytes of padding, and the
/// six numbers of its range.
pub proof fn lemma_axis_record_reads_back(setup: UinputAbsSetup, order: ByteOrder)
    ensures
        ({
            let record = setup.record(order);
            &&& record.len() == 28
            &&& word16_at(order, record, 0) == setup.code
            &&& record[2] == 0 && record[3] == 0
            &&& (word32_at(order, record, 4) - setup.absinfo.value) % 0x1_0000_0000 == 0
            &&& (word32_at(order, record, 8) - setup.absinfo.minimum) % 0x1_0000_0000 == 0
            &&& (word32_at(order, record, 12) - setup.absinfo.maximum) % 0x1_0000_0000 == 0
            &&& (word32_at(order, record, 16) - setup.absinfo.fuzz) % 0x1_0000_0000 == 0
            &&& (word32_at(order, record, 20) - setup.absinfo.flat) % 0x1_0000_0000 == 0
            &&& (word32_at(order, record, 24) - setup.absinfo.resolution) % 0x1_0000_0000 == 0
        }),
{
    let record = setup.record(order);
    lemma_word16_is_read_back(order, record, 0, setup.code as int);
    lemma_words_of_signed_numbers(setup.absinfo.value as int);
    lemma_word32_is_read_back(order, record, 4, word32(setup.absinfo.value as int));
    lemma_words_of_signed_numbers(setup.absinfo.minimum as int);
    lemma_word32_is_read_back(order, record, 8, word32(setup.absinfo.minimum as int));
    lemma_words_of_signed_numbers(setup.absinfo.maximum as int);
    lemma_word32_is_read_back(order, record, 12, word32(setup.absinfo.maximum as int));
    lemma_words_of_signed_numbers(setup.absinfo.fuzz as int);
    lemma_word32_is_read_back(order, record, 16, word32(setup.absinfo.fuzz as int));
    lemma_words_of_signed_numbers(setup.absinfo.flat as int);
    lemma_word32_is_read_back(order, record, 20, word32(setup.absinfo.flat as int));
    lemma_words_of_signed_numbers(setup.absinfo.resolution as int);
    lemma_word32_is_read_back(order, record, 24, word32(setup.absinfo.resolution as int));
}

/// The record of an identity can be read back: four numbers, the name, and the number
/// of effects.
pub proof fn lemma_identity_record_reads_back(setup: UinputSetup, order: ByteOrder)
    ensures
        ({
            let record = setup.record(order);
            &&& record.len() == 92
            &&& word16_at(order, record, 0) == setup.id.bustype
            &&& word16_at(order, record, 2) == setup.id.vendor
            &&& word16_at(order, record, 4) == setup.id.product
            &&& word16_at(order, record, 6) == setup.id.version
            &&& record.subrange(8, 88) == setup.name@
            &&& word32_at(order, record, 88) == setup.ff_effects_max
        }),
{
    let record = setup.record(order);
    lemma_word16_is_read_back(order, record, 0, setup.id.bustype as int);
    lemma_word16_is_read_back(order, record, 2, setup.id.vendor as int);
    lemma_word16_is_read_back(order, record, 4, setup.id.product as int);
    lemma_word16_is_read_back(order, record, 6, setup.id.version as int);
    lemma_word32_is_read_back(order, record, 88, setup.ff_effects_max as int);
    assert(record.subrange(8, 88) =~= setup.name@);
}

/// What the kernel is asked by a command, for every command: a bit goes to it as it
/// is, a record can be read back from its bytes, and the other commands carry nothing.
pub proof fn lemma_calls_tell_the_kernel(
    command: DeviceCommand,
    order: ByteOrder,
    call: Option<(u32, Argument)>,
)
    requires
        call_ensures(DeviceCommand::ioctl, (&command, order), call),
    ensures
        command is Open <==> call is None,
        command == DeviceCommand::Create ==> call == Some((0x5501u32, Argument::Nothing)),
        command == DeviceCommand::Destroy ==> call == Some((0x5502u32, Argument::Nothing)),
        command matches DeviceCommand::SetBit { request, value } ==> call == Some(
            (request, Argument::Value(value)),
        ),
        command matches DeviceCommand::AbsSetup(setup) ==> {
            &&& call matches Some((request, Argument::Record(bytes)))
            &&& request == 0x401c5504
            &&& bytes@.len() == 28
            &&& word16_at(order, bytes@, 0) == setup.code
            &&& (word32_at(order, bytes@, 4) - setup.absinfo.value) % 0x1_0000_0000 == 0
            &&& (word32_at(order, bytes@, 8) - setup.absinfo.minimum) % 0x1_0000_0000 == 0
            &&& (word32_at(order, bytes@, 12) - setup.absinfo.maximum) % 0x1_0000_0000 == 0
            &&& (word32_at(order, bytes@, 16) - setup.absinfo.fuzz) % 0x1_0000_0000 == 0
            &&& (word32_at(order, bytes@, 20) - setup.absinfo.flat) % 0x1_0000_0000 == 0
            &&& (word32_at(order, bytes@, 24) - setup.absinfo.resolution) % 0x1_0000_0000 == 0
        },
        command matches DeviceCommand::DevSetup(setup) ==> {
            &&& call matches Some((request, Argument::Record(bytes)))
            &&& request == 0x405c5503
            &&& bytes@.len() == 92
            &&& word16_at(order, bytes@, 0) == setup.id.bustype
            &&& word16_at(order, bytes@, 2) == setup.id.vendor
            &&& word16_at(order, bytes@, 4) == setup.id.product
            &&& word16_at(order, bytes@, 6) == setup.id.version
            &&& bytes@.subrange(8, 88) == setup.name@
            &&& word32_at(order, bytes@, 88) == setup.ff_effects_max
        },
{
    if let DeviceCommand::AbsSetup(setup) = command {
        lemma_axis_record_reads_back(setup, order);
    }
    if let DeviceCommand::DevSetup(setup) = command {
        lemma_identity_record_reads_back(setup, order);
    }
}

/// The argument determines the command: with one request, different bits never have
/// the same argument.
pub proof fn lemma_arguments_tell_bits_apart(
    request: u32,
    v1: u32,
    v2: u32,
    argument: Argument,
    order: ByteOrder,
)
    requires
        (DeviceCommand::SetBit { request, value: v1 }).is_argument(argument, order),
        (DeviceCommand::SetBit { request, value: v2 }).is_argument(argument, order),
    ensures
        v1 == v2,
{
}

} // verus!
