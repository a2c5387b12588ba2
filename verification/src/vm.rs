pub mod accounting;
pub mod collector;
pub mod counter_laws;
pub mod encoding;
pub mod evaluation_stack;
pub mod exception_handling_context;
pub mod exception_handling_state;
pub mod execution_context;
pub mod execution_engine;
pub mod execution_engine_limits;
pub mod instruction;
pub mod op_code;
pub mod reference_counter;
pub mod script;
pub mod slot;
pub mod snapshot;
pub mod vm_error;
pub mod vm_state;
