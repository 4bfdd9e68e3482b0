//! Batch image processing: a fixed crop and a text-recognition pipeline, run
//! over the files of one directory with each file's failure kept to itself.

pub mod engine;
pub mod geometry;
pub mod imaging;
pub mod report;
