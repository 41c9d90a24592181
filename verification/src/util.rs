pub mod chars;
pub mod string;
