pub mod execute_single_instr;
pub mod join_all_instr;
pub mod race_instr;
pub mod stream_instr;
