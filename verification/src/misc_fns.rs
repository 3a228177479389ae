use vstd::prelude::*;

verus! {

/// Proof that CEF was initialized; CEF is shut down when it is dropped.
#[derive(Debug)]
pub struct Context(());

impl Context {
    /// The context of a CEF initialization: present exactly when
    /// initialization succeeded.
    pub fn from_initialize_result(worked: bool) -> (c: Option<Context>)
        ensures
            c is Some <==> worked,
    {
        if worked {
            Some(Context(()))
        } else {
            None
        }
    }
}

} // verus!
