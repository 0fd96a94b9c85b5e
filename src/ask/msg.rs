use vstd::prelude::*;

verus! {

/// A chat role.
#[derive(Clone, Copy, Debug, PartialEq, Eq, Structural)]
pub enum Role {
    System,
    User,
    Assistant,
    Tool,
}

/// One message of a canonical transcript.
#[derive(Clone, Debug, PartialEq, Eq)]
pub struct Msg {
    pub role: Role,
    pub content: String,
    /// Optional sender label; for a `Tool` message, the id of the tool call
    /// that it answers.
    pub name: Option<String>,
}

impl Msg {
    /// A message with no name.
    pub fn new(role: Role, content: String) -> (r: Msg)
        ensures
            r == (Msg { role, content, name: None }),
    {
        Msg { role, content, name: None }
    }

    /// A field-by-field copy of the message.
    pub fn duplicate(&self) -> (r: Msg)
        ensures
            r == *self,
    {
        let name = match &self.name {
            Some(n) => Some(n.clone()),
            None => None,
        };
        Msg { role: self.role, content: self.content.clone(), name }
    }
}

/// A copy of a transcript, message by message.
pub fn copy_messages(msgs: &Vec<Msg>) -> (r: Vec<Msg>)
    ensures
        r@ == msgs@,
{
    let mut out: Vec<Msg> = Vec::new();
    let mut i: usize = 0;
    while i < msgs.len()
        invariant
            i <= msgs@.len(),
            out@ == msgs@.subrange(0, i as int),
        decreases msgs@.len() - i,
    {
        out.push(msgs[i].duplicate());
        i = i + 1;
    }
    assert(out@ =~= msgs@);
    out
}

} // verus!
