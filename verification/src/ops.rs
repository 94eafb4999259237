//! The native operations that scripts may call: what each is called, what it
//! takes and gives, and whether a call yields to the event loop.

use vstd::prelude::*;
use vstd::string::*;

verus! {

/// The host function behind an operation.
#[derive(Clone, Copy, Debug, PartialEq, Eq, Structural)]
pub enum OpKind {
    /// Reads a whole file as text.
    ReadFile,
    /// Writes text to a file, creating or truncating it.
    WriteFile,
    /// Deletes a file.
    RemoveFile,
}

/// Whether a call returns at once or yields to the event loop.
#[derive(Clone, Copy, Debug, PartialEq, Eq, Structural)]
pub enum Synchronicity {
    /// The call runs to its end without yielding control.
    Sync,
    /// The call yields; other ready work may run before it settles.
    Async,
}

/// The type of a parameter or of a result.
#[derive(Clone, Copy, Debug, PartialEq, Eq, Structural)]
pub enum ValueType {
    /// A string.
    Text,
    /// Nothing beyond success.
    Unit,
}

/// What an operation takes, in order, and what it gives.
#[derive(Debug, PartialEq, Eq)]
pub struct Signature {
    pub params: Vec<ValueType>,
    pub result: ValueType,
}

/// The mathematical value of a [`Signature`].
pub struct SignatureView {
    pub params: Seq<ValueType>,
    pub result: ValueType,
}

impl View for Signature {
    type V = SignatureView;

    open spec fn view(&self) -> SignatureView {
        SignatureView { params: self.params@, result: self.result }
    }
}

/// The name under which scripts call the operation.
pub open spec fn script_name_of(kind: OpKind) -> Seq<char> {
    match kind {
        OpKind::ReadFile => "read-file"@,
        OpKind::WriteFile => "write-file"@,
        OpKind::RemoveFile => "remove-file"@,
    }
}

/// Content I/O yields to the event loop; removing a file does not.
pub open spec fn synchronicity_of(kind: OpKind) -> Synchronicity {
    match kind {
        OpKind::ReadFile => Synchronicity::Async,
        OpKind::WriteFile => Synchronicity::Async,
        OpKind::RemoveFile => Synchronicity::Sync,
    }
}

/// Reading takes a path and gives the text; writing takes a path and the
/// text; removing takes a path.
pub open spec fn signature_of(kind: OpKind) -> SignatureView {
    match kind {
        OpKind::ReadFile => SignatureView {
            params: seq![ValueType::Text],
            result: ValueType::Text,
        },
        OpKind::WriteFile => SignatureView {
            params: seq![ValueType::Text, ValueType::Text],
            result: ValueType::Unit,
        },
        OpKind::RemoveFile => SignatureView {
            params: seq![ValueType::Text],
            result: ValueType::Unit,
        },
    }
}

/// No two operations share their script-facing name.
pub proof fn lemma_script_names_distinct(a: OpKind, b: OpKind)
    ensures
        script_name_of(a) == script_name_of(b) <==> a == b,
{
    reveal_strlit("read-file");
    reveal_strlit("write-file");
    reveal_strlit("remove-file");
    assert("read-file"@.len() == 9);
    assert("write-file"@.len() == 10);
    assert("remove-file"@.len() == 11);
}

impl OpKind {
    /// The name under which scripts call the operation.
    pub fn script_name(self) -> (name: &'static str)
        ensures
            name@ == script_name_of(self),
    {
        match self {
            OpKind::ReadFile => "read-file",
            OpKind::WriteFile => "write-file",
            OpKind::RemoveFile => "remove-file",
        }
    }

    /// Whether a call yields to the event loop.
    pub fn synchronicity(self) -> (s: Synchronicity)
        ensures
            s == synchronicity_of(self),
    {
        match self {
            OpKind::ReadFile => Synchronicity::Async,
            OpKind::WriteFile => Synchronicity::Async,
            OpKind::RemoveFile => Synchronicity::Sync,
        }
    }

    /// What the operation takes and gives.
    pub fn signature(self) -> (s: Signature)
        ensures
            s@ == signature_of(self),
    {
        let mut params: Vec<ValueType> = Vec::new();
        params.push(ValueType::Text);
        let result = match self {
            OpKind::ReadFile => ValueType::Text,
            OpKind::WriteFile => {
                params.push(ValueType::Text);
                ValueType::Unit
            },
            OpKind::RemoveFile => ValueType::Unit,
        };
        assert(params@ =~= signature_of(self).params);
        Signature { params, result }
    }
}

/// One entry of a capability bundle: a name, and the host function that the
/// name stands for. The function fixes the signature and the synchronicity.
#[derive(Debug, PartialEq, Eq)]
pub struct OperationDescriptor {
    pub name: String,
    pub implementation: OpKind,
}

/// The mathematical value of an [`OperationDescriptor`].
pub struct OperationView {
    pub name: Seq<char>,
    pub implementation: OpKind,
}

impl View for OperationDescriptor {
    type V = OperationView;

    open spec fn view(&self) -> OperationView {
        OperationView { name: self.name@, implementation: self.implementation }
    }
}

/// The descriptor of a host function under its script-facing name.
pub open spec fn native_descriptor(kind: OpKind) -> OperationView {
    OperationView { name: script_name_of(kind), implementation: kind }
}

impl Clone for OperationDescriptor {
    fn clone(&self) -> (r: Self)
        ensures
            r@ == self@,
    {
        OperationDescriptor { name: self.name.clone(), implementation: self.implementation }
    }
}

impl OperationDescriptor {
    /// A host function under a name of the caller's choice.
    pub fn new(name: String, implementation: OpKind) -> (d: OperationDescriptor)
        ensures
            d@ == (OperationView { name: name@, implementation }),
    {
        OperationDescriptor { name, implementation }
    }

    /// A host function under its script-facing name.
    pub fn native(kind: OpKind) -> (d: OperationDescriptor)
        ensures
            d@ == native_descriptor(kind),
    {
        OperationDescriptor { name: String::from_str(kind.script_name()), implementation: kind }
    }

    /// Whether a call of this operation yields to the event loop.
    pub fn synchronicity(&self) -> (s: Synchronicity)
        ensures
            s == synchronicity_of(self@.implementation),
    {
        self.implementation.synchronicity()
    }

    /// What this operation takes and gives.
    pub fn signature(&self) -> (s: Signature)
        ensures
            s@ == signature_of(self@.implementation),
    {
        self.implementation.signature()
    }
}

} // verus!
