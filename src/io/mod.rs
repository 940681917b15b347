pub mod serial_transfer;
