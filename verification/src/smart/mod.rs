//! Inspection of the machine's drives: the device inventory and the SMART
//! evaluation.

pub mod drive_list;
pub mod smart_read;
