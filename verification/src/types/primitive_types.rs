pub mod vm_boolean;
pub mod vm_byte_string;
pub mod vm_integer;
pub mod vm_primitive;
