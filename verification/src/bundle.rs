//! The capability bundle: a named table of native operations that is
//! installed into an engine as a whole, and looked up by name afterwards.

use vstd::prelude::*;
use vstd::string::*;
use crate::error::{ErrorKind, RunError, RunErrorView};
use crate::ops::{lemma_script_names_distinct, native_descriptor, OpKind, OperationDescriptor, OperationView};

verus! {

/// The mathematical values of a sequence of descriptors, in the same order.
pub open spec fn views_of(ops: Seq<OperationDescriptor>) -> Seq<OperationView> {
    ops.map_values(|d: OperationDescriptor| d@)
}

/// No name occurs twice.
pub open spec fn names_unique(ops: Seq<OperationView>) -> bool {
    forall|i: int, j: int| 0 <= i < j < ops.len() ==> ops[i].name != ops[j].name
}

/// Some entry bears the name.
pub open spec fn has_name(ops: Seq<OperationView>, name: Seq<char>) -> bool {
    exists|i: int| 0 <= i < ops.len() && ops[i].name == name
}

/// Entry `j` is the first whose name an earlier entry already bears.
pub open spec fn first_repeat(ops: Seq<OperationView>, j: int) -> bool {
    &&& 0 <= j < ops.len()
    &&& has_name(ops.take(j), ops[j].name)
    &&& names_unique(ops.take(j))
}

/// At most one entry is the first to repeat a name: a table determines the
/// failure that refuses it.
pub proof fn lemma_first_repeat_unique(ops: Seq<OperationView>, a: int, b: int)
    requires
        first_repeat(ops, a),
        first_repeat(ops, b),
    ensures
        a == b,
{
    if a < b {
        let i = choose|i: int| 0 <= i < ops.take(a).len() && ops.take(a)[i].name == ops[a].name;
        assert(ops.take(b)[i].name == ops.take(b)[a].name);
    } else if b < a {
        let i = choose|i: int| 0 <= i < ops.take(b).len() && ops.take(b)[i].name == ops[b].name;
        assert(ops.take(a)[i].name == ops.take(a)[b].name);
    }
}

/// A table repeats a name exactly when it has a first entry that does.
pub proof fn lemma_repeat_iff_not_unique(ops: Seq<OperationView>)
    ensures
        names_unique(ops) <==> forall|j: int| !first_repeat(ops, j),
    decreases ops.len(),
{
    if ops.len() > 0 {
        let front = ops.drop_last();
        let last = ops.len() - 1;
        lemma_repeat_iff_not_unique(front);
        assert(ops.take(last) =~= front);
        assert forall|j: int| 0 <= j < last implies first_repeat(front, j) == first_repeat(
            ops,
            j,
        ) by {
            assert(front.take(j) =~= ops.take(j));
        }
        if names_unique(ops) {
            assert forall|j: int| !first_repeat(ops, j) by {
                if first_repeat(ops, j) {
                    let i = choose|i: int|
                        0 <= i < ops.take(j).len() && ops.take(j)[i].name == ops[j].name;
                    assert(ops[i].name == ops[j].name);
                }
            }
        } else if names_unique(front) {
            let (i, j) = choose|i: int, j: int|
                0 <= i < j < ops.len() && ops[i].name == ops[j].name;
            assert(j == last) by {
                if j < last {
                    assert(front[i].name == front[j].name);
                }
            }
            assert(ops.take(last)[i].name == ops[last].name);
            assert(first_repeat(ops, last));
        } else {
            let j = choose|j: int| first_repeat(front, j);
            assert(first_repeat(ops, j));
        }
    }
}

/// The failure that refuses a table in which `name` occurs twice.
pub open spec fn duplicate_error(name: Seq<char>) -> RunErrorView {
    RunErrorView {
        kind: ErrorKind::Configuration,
        message: "duplicate operation name: "@ + name,
    }
}

/// A named table of native operations. Once made it never changes.
#[derive(Debug)]
pub struct CapabilityBundle {
    name: String,
    operations: Vec<OperationDescriptor>,
}

/// The mathematical value of a [`CapabilityBundle`].
pub struct BundleView {
    pub name: Seq<char>,
    pub operations: Seq<OperationView>,
}

impl View for CapabilityBundle {
    type V = BundleView;

    closed spec fn view(&self) -> BundleView {
        BundleView { name: self.name@, operations: views_of(self.operations@) }
    }
}

/// The bundle of the three file operations, in their fixed order.
pub open spec fn runjs_bundle() -> BundleView {
    BundleView {
        name: "runjs"@,
        operations: seq![
            native_descriptor(OpKind::ReadFile),
            native_descriptor(OpKind::WriteFile),
            native_descriptor(OpKind::RemoveFile),
        ],
    }
}

impl CapabilityBundle {
    /// Every bundle keeps its names unique.
    #[verifier::type_invariant]
    pub open spec fn wf(&self) -> bool {
        names_unique(self@.operations)
    }

    /// Makes a bundle of the given operations, all of them or none: the
    /// table is refused as a whole when a name occurs twice, and the failure
    /// names the first entry that repeats an earlier one.
    pub fn new(name: String, operations: Vec<OperationDescriptor>) -> (r: Result<
        CapabilityBundle,
        RunError,
    >)
        ensures
            r is Ok <==> names_unique(views_of(operations@)),
            r matches Ok(b) ==> b.wf() && b@ == (BundleView {
                name: name@,
                operations: views_of(operations@),
            }),
            r matches Err(e) ==> exists|j: int|
                first_repeat(views_of(operations@), j) && e@ == duplicate_error(
                    #[trigger] views_of(operations@)[j].name,
                ),
    {
        let ghost ops = views_of(operations@);
        let mut j: usize = 0;
        while j < operations.len()
            invariant
                j <= operations.len(),
                ops == views_of(operations@),
                names_unique(ops.take(j as int)),
            decreases operations.len() - j,
        {
            let mut i: usize = 0;
            while i < j
                invariant
                    i <= j < operations.len(),
                    ops == views_of(operations@),
                    names_unique(ops.take(j as int)),
                    forall|k: int| 0 <= k < i ==> ops[k].name != ops[j as int].name,
                decreases j - i,
            {
                if operations[i].name == operations[j].name {
                    let mut message = String::from_str("duplicate operation name: ");
                    message.append(operations[j].name.as_str());
                    proof {
                        assert(ops.take(j as int)[i as int].name == ops[j as int].name);
                        assert(first_repeat(ops, j as int));
                    }
                    return Err(RunError { kind: ErrorKind::Configuration, message });
                }
                i += 1;
            }
            proof {
                let before = ops.take(j as int);
                let through = ops.take(j + 1);
                assert forall|a: int, b: int| 0 <= a < b < through.len() implies through[a].name
                    != through[b].name by {
                    if b < j {
                        assert(before[a].name != before[b].name);
                    }
                }
            }
            j += 1;
        }
        proof {
            assert(ops.take(j as int) =~= ops);
        }
        Ok(CapabilityBundle { name, operations })
    }

    /// The bundle of the three file operations under their script-facing
    /// names: reading, writing, removing, in this order.
    pub fn runjs() -> (b: CapabilityBundle)
        ensures
            b.wf(),
            b@ == runjs_bundle(),
    {
        let mut operations: Vec<OperationDescriptor> = Vec::new();
        operations.push(OperationDescriptor::native(OpKind::ReadFile));
        operations.push(OperationDescriptor::native(OpKind::WriteFile));
        operations.push(OperationDescriptor::native(OpKind::RemoveFile));
        proof {
            lemma_script_names_distinct(OpKind::ReadFile, OpKind::WriteFile);
            lemma_script_names_distinct(OpKind::ReadFile, OpKind::RemoveFile);
            lemma_script_names_distinct(OpKind::WriteFile, OpKind::RemoveFile);
            assert(views_of(operations@) =~= runjs_bundle().operations);
        }
        CapabilityBundle { name: String::from_str("runjs"), operations }
    }

    /// The bundle's own name.
    pub fn name(&self) -> (name: &str)
        ensures
            name@ == self@.name,
    {
        self.name.as_str()
    }

    /// How many operations the bundle holds.
    pub fn len(&self) -> (n: usize)
        ensures
            n == self@.operations.len(),
    {
        self.operations.len()
    }

    /// The operations in the order in which they were declared.
    pub fn operations(&self) -> (ops: &Vec<OperationDescriptor>)
        ensures
            views_of(ops@) == self@.operations,
            names_unique(self@.operations),
    {
        proof {
            use_type_invariant(self);
        }
        &self.operations
    }

    /// Where the operation of that name stands in the bundle, if it is
    /// there. No other entry bears the name.
    pub fn position(&self, name: &str) -> (r: Option<usize>)
        ensures
            r is Some <==> has_name(self@.operations, name@),
            r matches Some(i) ==> i < self@.operations.len() && self@.operations[i as int].name
                == name@ && forall|k: int|
                0 <= k < self@.operations.len() && k != i ==> self@.operations[k].name != name@,
    {
        proof {
            use_type_invariant(self);
        }
        let wanted = String::from_str(name);
        let mut i: usize = 0;
        while i < self.operations.len()
            invariant
                i <= self.operations.len(),
                wanted@ == name@,
                names_unique(self@.operations),
                forall|k: int| 0 <= k < i ==> self@.operations[k].name != name@,
            decreases self.operations.len() - i,
        {
            if self.operations[i].name == wanted {
                return Some(i);
            }
            i += 1;
        }
        None
    }

    /// The operation that scripts reach under that name, if the bundle has
    /// one.
    pub fn lookup(&self, name: &str) -> (r: Option<&OperationDescriptor>)
        ensures
            r is Some <==> has_name(self@.operations, name@),
            r matches Some(d) ==> d@.name == name@ && self@.operations.contains(d@),
    {
        match self.position(name) {
            Some(i) => Some(&self.operations[i]),
            None => None,
        }
    }
}

} // verus!
