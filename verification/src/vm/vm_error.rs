use vstd::prelude::*;

verus! {

/// What went wrong in an operation of the virtual machine. Each variant
/// carries a short message.
#[derive(Debug, PartialEq, Eq, Clone)]
pub enum VMError {
    /// The invocation stack would grow past its limit.
    InvocationStackOverflow(String),
    /// The try stack of a context would grow past its limit.
    TryNestingOverflow(String),
    /// More references are live than the stack limit allows.
    StackOverflow(String),
    /// A single item would be larger than the item limit.
    ItemTooLarge(String),
    /// A byte that is no instruction code.
    InvalidOpcode(String),
    /// A division or remainder by zero.
    DivisionByZero(String),
    /// A jump or a pointer outside the script.
    InvalidJump(String),
    /// A token that the host does not know.
    InvalidToken(String),
    /// An argument outside what the operation accepts.
    InvalidParameter(String),
    /// A key or an index that the collection does not hold.
    ItemNotFound(String),
    /// An item of the wrong type for the operation.
    InvalidType(String),
    /// Any other failure.
    Custom(String),
}

/// The variant of a [`VMError`] without its message.
#[derive(Debug, Clone, Copy, PartialEq, Eq, Structural)]
pub enum VMErrorKind {
    InvocationStackOverflow,
    TryNestingOverflow,
    StackOverflow,
    ItemTooLarge,
    InvalidOpcode,
    DivisionByZero,
    InvalidJump,
    InvalidToken,
    InvalidParameter,
    ItemNotFound,
    InvalidType,
    Custom,
}

impl VMError {
    /// The variant of this error.
    pub open spec fn spec_kind(self) -> VMErrorKind {
        match self {
            VMError::InvocationStackOverflow(_) => VMErrorKind::InvocationStackOverflow,
            VMError::TryNestingOverflow(_) => VMErrorKind::TryNestingOverflow,
            VMError::StackOverflow(_) => VMErrorKind::StackOverflow,
            VMError::ItemTooLarge(_) => VMErrorKind::ItemTooLarge,
            VMError::InvalidOpcode(_) => VMErrorKind::InvalidOpcode,
            VMError::DivisionByZero(_) => VMErrorKind::DivisionByZero,
            VMError::InvalidJump(_) => VMErrorKind::InvalidJump,
            VMError::InvalidToken(_) => VMErrorKind::InvalidToken,
            VMError::InvalidParameter(_) => VMErrorKind::InvalidParameter,
            VMError::ItemNotFound(_) => VMErrorKind::ItemNotFound,
            VMError::InvalidType(_) => VMErrorKind::InvalidType,
            VMError::Custom(_) => VMErrorKind::Custom,
        }
    }

    /// The message that this error carries.
    pub open spec fn spec_message(self) -> Seq<char> {
        match self {
            VMError::InvocationStackOverflow(m) => m@,
            VMError::TryNestingOverflow(m) => m@,
            VMError::StackOverflow(m) => m@,
            VMError::ItemTooLarge(m) => m@,
            VMError::InvalidOpcode(m) => m@,
            VMError::DivisionByZero(m) => m@,
            VMError::InvalidJump(m) => m@,
            VMError::InvalidToken(m) => m@,
            VMError::InvalidParameter(m) => m@,
            VMError::ItemNotFound(m) => m@,
            VMError::InvalidType(m) => m@,
            VMError::Custom(m) => m@,
        }
    }

    pub fn kind(&self) -> (r: VMErrorKind)
        ensures
            r == self.spec_kind(),
    {
        match self {
            VMError::InvocationStackOverflow(_) => VMErrorKind::InvocationStackOverflow,
            VMError::TryNestingOverflow(_) => VMErrorKind::TryNestingOverflow,
            VMError::StackOverflow(_) => VMErrorKind::StackOverflow,
            VMError::ItemTooLarge(_) => VMErrorKind::ItemTooLarge,
            VMError::InvalidOpcode(_) => VMErrorKind::InvalidOpcode,
            VMError::DivisionByZero(_) => VMErrorKind::DivisionByZero,
            VMError::InvalidJump(_) => VMErrorKind::InvalidJump,
            VMError::InvalidToken(_) => VMErrorKind::InvalidToken,
            VMError::InvalidParameter(_) => VMErrorKind::InvalidParameter,
            VMError::ItemNotFound(_) => VMErrorKind::ItemNotFound,
            VMError::InvalidType(_) => VMErrorKind::InvalidType,
            VMError::Custom(_) => VMErrorKind::Custom,
        }
    }

    /// The words that introduce the message of each variant.
    pub fn prefix(&self) -> (r: &'static str)
        ensures
            r@ == VMError::spec_prefix(self.spec_kind()),
    {
        match self {
            VMError::InvocationStackOverflow(_) => "Invocation stack size limit exceeded: ",
            VMError::TryNestingOverflow(_) => "Try nesting depth limit exceeded: ",
            VMError::StackOverflow(_) => "Stack size limit exceeded: ",
            VMError::ItemTooLarge(_) => "Item size exceeds limit: ",
            VMError::InvalidOpcode(_) => "Encountered invalid opcode: ",
            VMError::DivisionByZero(_) => "Tried to divide by zero: ",
            VMError::InvalidJump(_) => "Invalid jump offset or pointer: ",
            VMError::InvalidToken(_) => "Invalid token encountered: ",
            VMError::InvalidParameter(_) => "Invalid parameter for operation: ",
            VMError::ItemNotFound(_) => "Item not found in collection: ",
            VMError::InvalidType(_) => "Type mismatch for operation: ",
            VMError::Custom(_) => "Custom VM error: ",
        }
    }

    pub open spec fn spec_prefix(kind: VMErrorKind) -> Seq<char> {
        match kind {
            VMErrorKind::InvocationStackOverflow => "Invocation stack size limit exceeded: "@,
            VMErrorKind::TryNestingOverflow => "Try nesting depth limit exceeded: "@,
            VMErrorKind::StackOverflow => "Stack size limit exceeded: "@,
            VMErrorKind::ItemTooLarge => "Item size exceeds limit: "@,
            VMErrorKind::InvalidOpcode => "Encountered invalid opcode: "@,
            VMErrorKind::DivisionByZero => "Tried to divide by zero: "@,
            VMErrorKind::InvalidJump => "Invalid jump offset or pointer: "@,
            VMErrorKind::InvalidToken => "Invalid token encountered: "@,
            VMErrorKind::InvalidParameter => "Invalid parameter for operation: "@,
            VMErrorKind::ItemNotFound => "Item not found in collection: "@,
            VMErrorKind::InvalidType => "Type mismatch for operation: "@,
            VMErrorKind::Custom => "Custom VM error: "@,
        }
    }

    /// The message of this error.
    pub fn message(&self) -> (r: &String)
        ensures
            r@ == self.spec_message(),
    {
        match self {
            VMError::InvocationStackOverflow(m) => m,
            VMError::TryNestingOverflow(m) => m,
            VMError::StackOverflow(m) => m,
            VMError::ItemTooLarge(m) => m,
            VMError::InvalidOpcode(m) => m,
            VMError::DivisionByZero(m) => m,
            VMError::InvalidJump(m) => m,
            VMError::InvalidToken(m) => m,
            VMError::InvalidParameter(m) => m,
            VMError::ItemNotFound(m) => m,
            VMError::InvalidType(m) => m,
            VMError::Custom(m) => m,
        }
    }

    /// The text of this error: the words of its variant, then its message.
    pub fn to_string(&self) -> (r: String)
        ensures
            r@ == VMError::spec_prefix(self.spec_kind()) + self.spec_message(),
    {
        let head: String = self.prefix().to_owned();
        head.concat(self.message().as_str())
    }
}

} // verus!
