pub mod builder;
pub mod chars;
pub mod flags;
pub mod lists;
pub mod model;
pub mod nettext;
pub mod numbers;
pub mod parser;
pub mod roundtrip;
pub mod tokens;
pub mod widgets;
