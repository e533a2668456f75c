//! The error type of the library.

use vstd::prelude::*;
use vstd::std_specs::convert::FromSpec;

verus! {

/// VMware backdoor errors: a human-readable message.
#[derive(Debug)]
pub struct VmwError {
    msg: String,
}

impl View for VmwError {
    type V = Seq<char>;

    /// The message of the error.
    closed spec fn view(&self) -> Seq<char> {
        self.msg@
    }
}

impl VmwError {
    /// An error with the message `msg`.
    pub fn new(msg: &str) -> (e: VmwError)
        ensures
            e@ == msg@,
    {
        VmwError { msg: String::from_str(msg) }
    }

    /// An error whose message is the string `msg`.
    pub fn from_string(msg: String) -> (e: VmwError)
        ensures
            e@ == msg@,
    {
        VmwError { msg }
    }

    /// The message of the error.
    pub fn message(&self) -> (m: &str)
        ensures
            m@ == self@,
    {
        self.msg.as_str()
    }

    /// The error as it is displayed: the message behind a fixed prefix.
    pub fn to_string(&self) -> (s: String)
        ensures
            s@ == "vmware backdoor error: "@ + self@,
    {
        let mut s = String::from_str("vmware backdoor error: ");
        s.append(self.msg.as_str());
        s
    }
}

impl From<String> for VmwError {
    /// The error whose message is `arg`.
    fn from(arg: String) -> (e: VmwError)
        ensures
            e@ == arg@,
    {
        VmwError { msg: arg }
    }
}

impl vstd::std_specs::convert::FromSpecImpl<String> for VmwError {
    open spec fn obeys_from_spec() -> bool {
        true
    }

    closed spec fn from_spec(arg: String) -> VmwError {
        VmwError { msg: arg }
    }
}

/// Converting a string into an error keeps the string as the message.
pub proof fn lemma_from_string_message(arg: String)
    ensures
        <VmwError as FromSpec<String>>::from_spec(arg)@ == arg@,
{
}

impl<'a> From<&'a str> for VmwError {
    /// The error whose message is the text `arg`.
    fn from(arg: &'a str) -> (e: VmwError)
        ensures
            e@ == arg@,
    {
        VmwError { msg: String::from_str(arg) }
    }
}

/// A `String` is known by its text only, so two errors made from the same
/// text need not be the same value: the conversion from text is not claimed
/// to be a function of it, and its own `ensures` states the message.
impl<'a> vstd::std_specs::convert::FromSpecImpl<&'a str> for VmwError {
    open spec fn obeys_from_spec() -> bool {
        false
    }

    closed spec fn from_spec(arg: &'a str) -> VmwError {
        choose|e: VmwError| e@ == arg@
    }
}

} // verus!
