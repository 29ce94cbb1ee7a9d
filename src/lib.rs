//! A personal time tracker: sessions are started and stopped, each stopped
//! session leaves a record of its interval, and reports add up the recorded
//! time within a window.

use vstd::prelude::*;

pub mod cli;
pub mod error;
pub mod flatfile;
pub mod report_fmt;
pub mod reporter;
pub mod time;
pub mod tracker;

verus! {

} // verus!
