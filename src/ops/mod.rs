pub mod arithmetic_logic;
pub mod bit_operations;
pub mod branch;
pub mod miscellaneous;
pub mod load;
