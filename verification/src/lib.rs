//! An integer-valued model of a gradient-boosting data pipeline: feature
//! matrices, dataset assembly with dimension checks, label and weight
//! fields, and booster construction over a shared dataset.

pub mod dataset;
pub mod demo;
