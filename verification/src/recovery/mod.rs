pub mod label_match;
