//! The state shared by the commands of the application: the current
//! settings and the flag that cancels a running build.
use vstd::prelude::*;
use crate::settings::{default_fields, default_settings, settings_fields, AppSettings};
use std::sync::atomic::AtomicBool;
use std::sync::{Arc, Mutex};

verus! {

#[verifier::external_type_specification]
#[verifier::external_body]
#[verifier::reject_recursive_types(T)]
pub struct ExMutex<T: ?Sized>(Mutex<T>);

/// The fields of the settings that a mutex holds when it is made (see
/// `settings_fields`).  Nothing in this library locks the mutex, so the
/// name is only ever applied to a mutex no one has changed; the front end
/// locks it, outside what is verified.
pub uninterp spec fn mutex_settings_fields(m: Mutex<AppSettings>) -> Seq<Seq<char>>;

/// Makes a mutex with `std::sync::Mutex::new`.  Claimed: the mutex holds
/// settings whose fields are those of `s` (the fields are named by
/// `mutex_settings_fields`, which nothing else speaks of).
#[verifier::external_body]
fn settings_mutex(s: AppSettings) -> (m: Mutex<AppSettings>)
    ensures
        mutex_settings_fields(m) == settings_fields(s),
{
    Mutex::new(s)
}

/// The value a flag was made with.  Nothing in this library stores to the
/// flag; the front end does, outside what is verified.
pub uninterp spec fn flag_made_with(f: AtomicBool) -> bool;

/// Makes a flag with `AtomicBool::default`.  Claimed: it is made holding
/// `false` (std: "Creates an `AtomicBool` initialized to `false`").
#[verifier::external_body]
fn cleared_flag() -> (f: AtomicBool)
    ensures
        flag_made_with(f) == false,
{
    AtomicBool::default()
}

/// The state shared by the commands.
pub struct AppState {
    pub settings: Mutex<AppSettings>,
    pub build_cancel: Arc<AtomicBool>,
}

impl AppState {
    /// The state at start-up: default settings, and a cleared cancel flag
    /// that is shared with the build that it may stop.
    pub fn new() -> (st: Self)
        ensures
            mutex_settings_fields(st.settings) == default_fields(),
            flag_made_with(*st.build_cancel) == false,
    {
        let s = default_settings();
        assert(settings_fields(s) =~= default_fields());
        let settings = settings_mutex(s);
        AppState { settings, build_cancel: Arc::new(cleared_flag()) }
    }
}

} // verus!
