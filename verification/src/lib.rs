//! Similarity of person records for deduplication and record linkage.
//!
//! Two persons are compared field by field. A field that both hold adds its
//! weight to the applicable maximum and its weight times its similarity to the
//! accumulated score; the result is the accumulated score divided by the mean
//! of the applicable maximum and the sum of all weights, so that a pair with
//! little in common to compare cannot score high on that little alone.
//!
//! Every number is a whole number or a fraction of two: weights are counted
//! in tenths, the measures of two texts in parts of two to the power 53, and a
//! similarity is handed back as numerator and denominator. The three measures
//! that are blended for two differing texts are taken by the caller and given
//! to the engine as values.
//!
//! - [`models`]: the person record.
//! - [`services`]: the weights, the similarity of texts and of persons, and
//!   what is proved of them.
//! - [`views`]: persons as HTML tables and forms.

pub mod models;
pub mod services;
pub mod views;
