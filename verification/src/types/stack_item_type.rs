use vstd::prelude::*;

verus! {

/// The type of a value on the stack. Each type has a one-byte code.
#[derive(Copy, Clone, Debug, PartialEq, Eq, Structural)]
pub enum StackItemType {
    Any,
    Pointer,
    Boolean,
    Integer,
    ByteString,
    Buffer,
    Array,
    Struct,
    Mapping,
    InteropInterface,
}

impl StackItemType {
    /// The byte that encodes this type.
    pub open spec fn code(self) -> u8 {
        match self {
            StackItemType::Any => 0x00,
            StackItemType::Pointer => 0x10,
            StackItemType::Boolean => 0x20,
            StackItemType::Integer => 0x21,
            StackItemType::ByteString => 0x28,
            StackItemType::Buffer => 0x30,
            StackItemType::Array => 0x40,
            StackItemType::Struct => 0x41,
            StackItemType::Mapping => 0x48,
            StackItemType::InteropInterface => 0x60,
        }
    }

    /// The type that a byte encodes, if it encodes one.
    pub open spec fn spec_from_u8(value: u8) -> Option<StackItemType> {
        match value {
            0x00 => Some(StackItemType::Any),
            0x10 => Some(StackItemType::Pointer),
            0x20 => Some(StackItemType::Boolean),
            0x21 => Some(StackItemType::Integer),
            0x28 => Some(StackItemType::ByteString),
            0x30 => Some(StackItemType::Buffer),
            0x40 => Some(StackItemType::Array),
            0x41 => Some(StackItemType::Struct),
            0x48 => Some(StackItemType::Mapping),
            0x60 => Some(StackItemType::InteropInterface),
            _ => None,
        }
    }

    pub open spec fn spec_is_primitive_type(tp: StackItemType) -> bool {
        tp == StackItemType::Boolean || tp == StackItemType::Integer || tp
            == StackItemType::ByteString
    }

    pub open spec fn spec_is_compound_type(tp: StackItemType) -> bool {
        tp == StackItemType::Array || tp == StackItemType::Struct || tp == StackItemType::Mapping
    }

    pub fn to_u8(self) -> (r: u8)
        ensures
            r == self.code(),
    {
        match self {
            StackItemType::Any => 0x00,
            StackItemType::Pointer => 0x10,
            StackItemType::Boolean => 0x20,
            StackItemType::Integer => 0x21,
            StackItemType::ByteString => 0x28,
            StackItemType::Buffer => 0x30,
            StackItemType::Array => 0x40,
            StackItemType::Struct => 0x41,
            StackItemType::Mapping => 0x48,
            StackItemType::InteropInterface => 0x60,
        }
    }

    /// Whether the byte encodes a type.
    pub fn is_valid(tp: u8) -> (r: bool)
        ensures
            r == (StackItemType::spec_from_u8(tp) is Some),
    {
        match tp {
            0x00 | 0x10 | 0x20 | 0x21 | 0x28 | 0x30 | 0x40 | 0x41 | 0x48 | 0x60 => true,
            _ => false,
        }
    }

    /// Every value of the enum is a type, so this is always true.
    pub fn is_valid_type(tp: StackItemType) -> (r: bool)
        ensures
            r,
    {
        matches!(
            tp,
            StackItemType::Any
                | StackItemType::Pointer
                | StackItemType::Boolean
                | StackItemType::Integer
                | StackItemType::ByteString
                | StackItemType::Buffer
                | StackItemType::Array
                | StackItemType::Struct
                | StackItemType::Mapping
                | StackItemType::InteropInterface
        )
    }

    /// Whether the byte encodes `Boolean`, `Integer` or `ByteString`.
    pub fn is_primitive(tp: u8) -> (r: bool)
        ensures
            r == match StackItemType::spec_from_u8(tp) {
                Some(t) => StackItemType::spec_is_primitive_type(t),
                None => false,
            },
    {
        match tp {
            0x20 | 0x21 | 0x28 => true,
            _ => false,
        }
    }

    pub fn is_primitive_type(tp: StackItemType) -> (r: bool)
        ensures
            r == StackItemType::spec_is_primitive_type(tp),
    {
        matches!(tp, StackItemType::Boolean | StackItemType::Integer | StackItemType::ByteString)
    }

    /// Whether the byte encodes `Array`, `Struct` or `Map`.
    pub fn is_compound(tp: u8) -> (r: bool)
        ensures
            r == match StackItemType::spec_from_u8(tp) {
                Some(t) => StackItemType::spec_is_compound_type(t),
                None => false,
            },
    {
        match tp {
            0x40 | 0x41 | 0x48 => true,
            _ => false,
        }
    }

    pub fn is_compound_type(tp: StackItemType) -> (r: bool)
        ensures
            r == StackItemType::spec_is_compound_type(tp),
    {
        matches!(tp, StackItemType::Array | StackItemType::Struct | StackItemType::Mapping)
    }

    pub fn from_u8(value: u8) -> (r: Option<StackItemType>)
        ensures
            r == StackItemType::spec_from_u8(value),
    {
        match value {
            0x00 => Some(StackItemType::Any),
            0x10 => Some(StackItemType::Pointer),
            0x20 => Some(StackItemType::Boolean),
            0x21 => Some(StackItemType::Integer),
            0x28 => Some(StackItemType::ByteString),
            0x30 => Some(StackItemType::Buffer),
            0x40 => Some(StackItemType::Array),
            0x41 => Some(StackItemType::Struct),
            0x48 => Some(StackItemType::Mapping),
            0x60 => Some(StackItemType::InteropInterface),
            _ => None,
        }
    }

    /// Reading back the byte of a type gives that type.
    pub proof fn lemma_code_round_trip(self)
        ensures
            StackItemType::spec_from_u8(self.code()) == Some(self),
    {
    }
}

} // verus!
