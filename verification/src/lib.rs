#![allow(non_snake_case)]
#![verifier::loop_isolation(false)]

pub mod bar;
pub mod headless;
pub mod medium;
pub mod ops;
pub mod parse;
pub mod visual;
mod rng;
