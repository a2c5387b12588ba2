pub mod compound_type;
pub mod vm_array;
pub mod vm_compound;
pub mod vm_map;
pub mod vm_struct;
