//! Commands: operators that carry a mnemonic and the operands they act on.

pub mod operator;
