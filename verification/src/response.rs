//! What an executed operation hands back: zero or more transfer
//! instructions for the host, plus observability attributes.

use vstd::prelude::*;

use crate::helper::Coin;

verus! {

/// An observability key/value pair attached to a response.
#[derive(Debug, PartialEq, Eq)]
pub struct Attribute {
    pub key: String,
    pub value: String,
}

/// The attribute carries exactly this key and value.
pub open spec fn attr_is(a: Attribute, key: Seq<char>, value: Seq<char>) -> bool {
    a.key@ == key && a.value@ == value
}

/// An instruction to the host: move these coins to this address.
/// The engine only ever emits such instructions; it never moves funds.
#[derive(Debug, PartialEq, Eq)]
pub struct BankMsg {
    pub to_address: String,
    pub amount: Vec<Coin>,
}

/// The result of a successful operation.
#[derive(Debug, PartialEq, Eq)]
pub struct Response {
    pub messages: Vec<BankMsg>,
    pub attributes: Vec<Attribute>,
}

impl Response {
    pub fn new() -> (r: Response)
        ensures
            r.messages@.len() == 0,
            r.attributes@.len() == 0,
    {
        Response { messages: Vec::new(), attributes: Vec::new() }
    }

    /// Append one observability attribute.
    pub fn add_attribute(self, key: &str, value: &str) -> (r: Response)
        ensures
            r.messages@ == self.messages@,
            r.attributes@.len() == self.attributes@.len() + 1,
            forall|i: int|
                0 <= i < self.attributes@.len() ==> r.attributes@[i] == self.attributes@[i],
            attr_is(r.attributes@.last(), key@, value@),
    {
        let mut r = self;
        r.attributes.push(Attribute { key: key.to_string(), value: value.to_string() });
        r
    }

    /// Append one transfer instruction.
    pub fn add_message(self, msg: BankMsg) -> (r: Response)
        ensures
            r.attributes@ == self.attributes@,
            r.messages@ == self.messages@.push(msg),
    {
        let mut r = self;
        r.messages.push(msg);
        r
    }
}

} // verus!
