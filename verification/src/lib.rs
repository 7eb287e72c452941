use vstd::prelude::*;

pub mod json;
pub mod text;
pub mod captcha;
pub mod mail_tm;
pub mod mailbox;
pub mod mail_gw;
pub mod random;
pub mod gameplay;
pub mod signal;
pub mod textmap;
pub mod accountdb;
pub mod probe;
pub mod pool;
pub mod catalog;
pub mod forms;
pub mod register;
pub mod paths;
pub mod api;
pub mod laws;

verus! {

} // verus!
