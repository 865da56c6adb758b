//! Boot-time model of an STM32F746 (ARM Cortex-M7): the layout of the vector
//! table, the reset sequence that prepares memory for the application, and
//! the fail-stop policy of the fault handlers.
pub mod source;
pub mod table;
pub mod bindings;
pub mod boot;
pub mod machine;
