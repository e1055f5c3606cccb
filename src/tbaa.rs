//! Type-based alias labels. Every load through the VM context is tagged with
//! a label; each label gets one type descriptor, a child of a single root, so
//! that loads with different labels are known not to alias.
use vstd::prelude::*;

verus! {

/// What a tagged load reads; the number is the entity's index.
#[derive(Clone, Copy, Debug, PartialEq, Eq, Structural)]
pub enum TbaaLabel {
    MemoryDefinition(u32),
    MemoryBasePtr(u32),
    TableDefinition(u32),
    TableBasePtr(u32),
    TableBounds(u32),
    SigIndex(u32),
    GlobalPtr(u32),
    Global(u32),
    /// The body pointer in an imported function's import record.
    FunctionBody(u32),
    /// The VM context in an imported function's import record.
    FunctionVmctx(u32),
    /// The `memory.grow` builtin pointer used for a memory.
    MemoryGrow(u32),
    /// The `memory.size` builtin pointer used for a memory.
    MemorySize(u32),
}

/// The character of a decimal digit.
pub open spec fn digit_char(d: int) -> char {
    if d == 0 {
        '0'
    } else if d == 1 {
        '1'
    } else if d == 2 {
        '2'
    } else if d == 3 {
        '3'
    } else if d == 4 {
        '4'
    } else if d == 5 {
        '5'
    } else if d == 6 {
        '6'
    } else if d == 7 {
        '7'
    } else if d == 8 {
        '8'
    } else {
        '9'
    }
}

/// The decimal text of an integer, as std's `Display` writes it: its digits,
/// most significant first, without leading zeros.
pub open spec fn decimal_text(n: u32) -> Seq<char>
    decreases n,
{
    if n < 10 {
        seq![digit_char(n as int)]
    } else {
        decimal_text(n / 10).push(digit_char((n % 10) as int))
    }
}

/// Relies on std's `format!` of a `u32` (its `Display`): the decimal digits of
/// `n` between `prefix` and `suffix`.
#[verifier::external_body]
fn numbered_text(prefix: &str, n: u32, suffix: &str) -> (r: String)
    ensures
        r@ == prefix@ + decimal_text(n) + suffix@,
{
    format!("{}{}{}", prefix, n, suffix)
}

/// Name of the root node that every type descriptor hangs from.
pub const TBAA_ROOT_NAME: &'static str = "wasmer_tbaa_root";

/// Suffix that turns a label's name into the name of its access tag.
pub const ACCESS_TAG_SUFFIX: &'static str = "_memop";

impl TbaaLabel {
    /// The human-readable text of the label.
    pub open spec fn text_spec(self) -> Seq<char> {
        match self {
            TbaaLabel::MemoryDefinition(i) => "memory "@ + decimal_text(i) + " definition"@,
            TbaaLabel::MemoryBasePtr(i) => "memory base_ptr "@ + decimal_text(i) + ""@,
            TbaaLabel::TableDefinition(i) => "table "@ + decimal_text(i) + " definition"@,
            TbaaLabel::TableBasePtr(i) => "table_base_ptr "@ + decimal_text(i) + ""@,
            TbaaLabel::TableBounds(i) => "table_bounds "@ + decimal_text(i) + ""@,
            TbaaLabel::SigIndex(i) => "sigindex "@ + decimal_text(i) + ""@,
            TbaaLabel::GlobalPtr(i) => "global_ptr "@ + decimal_text(i) + ""@,
            TbaaLabel::Global(i) => "global "@ + decimal_text(i) + ""@,
            TbaaLabel::FunctionBody(i) => "func_body "@ + decimal_text(i) + ""@,
            TbaaLabel::FunctionVmctx(i) => "func_vmctx "@ + decimal_text(i) + ""@,
            TbaaLabel::MemoryGrow(i) => "memory_grow "@ + decimal_text(i) + ""@,
            TbaaLabel::MemorySize(i) => "memory_size "@ + decimal_text(i) + ""@,
        }
    }

    /// The human-readable text of the label, e.g. `memory base_ptr 3`.
    pub fn text(&self) -> (r: String)
        ensures
            r@ == self.text_spec(),
    {
        match self {
            TbaaLabel::MemoryDefinition(i) => numbered_text("memory ", *i, " definition"),
            TbaaLabel::MemoryBasePtr(i) => numbered_text("memory base_ptr ", *i, ""),
            TbaaLabel::TableDefinition(i) => numbered_text("table ", *i, " definition"),
            TbaaLabel::TableBasePtr(i) => numbered_text("table_base_ptr ", *i, ""),
            TbaaLabel::TableBounds(i) => numbered_text("table_bounds ", *i, ""),
            TbaaLabel::SigIndex(i) => numbered_text("sigindex ", *i, ""),
            TbaaLabel::GlobalPtr(i) => numbered_text("global_ptr ", *i, ""),
            TbaaLabel::Global(i) => numbered_text("global ", *i, ""),
            TbaaLabel::FunctionBody(i) => numbered_text("func_body ", *i, ""),
            TbaaLabel::FunctionVmctx(i) => numbered_text("func_vmctx ", *i, ""),
            TbaaLabel::MemoryGrow(i) => numbered_text("memory_grow ", *i, ""),
            TbaaLabel::MemorySize(i) => numbered_text("memory_size ", *i, ""),
        }
    }
}

/// A metadata node of the alias scheme.
#[derive(Clone, Copy, Debug, PartialEq, Eq, Structural)]
pub enum TbaaNode {
    /// The single root.
    Root,
    /// The type descriptor registered at this position of the registry.
    Descriptor(usize),
}

/// The tag attached to a load: (base type, access type, offset). For the
/// scalar descriptors used here base and access are the same node and the
/// offset is zero.
#[derive(Clone, Copy, Debug, PartialEq, Eq, Structural)]
pub struct AccessTag {
    pub base: TbaaNode,
    pub access: TbaaNode,
    pub offset: u64,
}

/// The per-module registry of labels. A label's type descriptor is its
/// position here; every descriptor's parent is the root.
pub struct TbaaRegistry {
    labels: Vec<TbaaLabel>,
}

impl View for TbaaRegistry {
    type V = Seq<TbaaLabel>;

    closed spec fn view(&self) -> Seq<TbaaLabel> {
        self.labels@
    }
}

/// The parent of a type descriptor in the metadata tree.
pub open spec fn descriptor_parent(d: TbaaNode) -> Option<TbaaNode> {
    match d {
        TbaaNode::Root => None,
        TbaaNode::Descriptor(_) => Some(TbaaNode::Root),
    }
}

/// No label is registered twice.
pub open spec fn labels_distinct(s: Seq<TbaaLabel>) -> bool {
    forall|i: int, j: int| 0 <= i < s.len() && 0 <= j < s.len() && i != j ==> s[i] != s[j]
}

/// The access tag of the descriptor at position `k`.
pub open spec fn tag_of(k: usize) -> AccessTag {
    AccessTag { base: TbaaNode::Descriptor(k), access: TbaaNode::Descriptor(k), offset: 0 }
}

impl TbaaRegistry {
    pub open spec fn wf(&self) -> bool {
        labels_distinct(self@)
    }

    /// An empty registry.
    pub fn new() -> (r: Self)
        ensures
            r.wf(),
            r@ == Seq::<TbaaLabel>::empty(),
    {
        TbaaRegistry { labels: Vec::new() }
    }

    /// The labels registered so far, in order.
    pub fn labels(&self) -> (r: &Vec<TbaaLabel>)
        ensures
            r@ == self@,
    {
        &self.labels
    }

    /// Position of `label` in the registry, if it is there.
    pub fn find(&self, label: TbaaLabel) -> (r: Option<usize>)
        requires
            self.wf(),
        ensures
            r matches Some(k) ==> k < self@.len() && self@[k as int] == label,
            r is None <==> !self@.contains(label),
    {
        let mut i: usize = 0;
        while i < self.labels.len()
            invariant
                i <= self@.len(),
                forall|j: int| 0 <= j < i ==> self@[j] != label,
            decreases self@.len() - i,
        {
            if self.labels[i] == label {
                return Some(i);
            }
            i += 1;
        }
        None
    }
}

/// The access tag for `label` in `registry`, registering the label's type
/// descriptor under the root on first use.
pub fn tbaa_label(registry: &mut TbaaRegistry, label: TbaaLabel) -> (r: AccessTag)
    requires
        old(registry).wf(),
    ensures
        final(registry).wf(),
        old(registry)@.contains(label) ==> final(registry)@ == old(registry)@,
        !old(registry)@.contains(label) ==> final(registry)@ == old(registry)@.push(label),
        r.base is Descriptor,
        r == tag_of(r.base->Descriptor_0),
        r.base->Descriptor_0 < final(registry)@.len(),
        final(registry)@[r.base->Descriptor_0 as int] == label,
{
    match registry.find(label) {
        Some(k) => tag_of_exec(k),
        None => {
            let k = registry.labels.len();
            registry.labels.push(label);
            assert(labels_distinct(registry@)) by {
                assert(forall|j: int| 0 <= j < k ==> registry@[j] == old(registry)@[j]);
            }
            tag_of_exec(k)
        },
    }
}

fn tag_of_exec(k: usize) -> (r: AccessTag)
    ensures
        r == tag_of(k),
{
    AccessTag { base: TbaaNode::Descriptor(k), access: TbaaNode::Descriptor(k), offset: 0 }
}

/// In a registry, two labels share a type descriptor exactly when they are
/// the same label, and every descriptor hangs from the one root: loads with
/// distinct labels are reported as not aliasing.
pub proof fn lemma_distinct_labels_distinct_descriptors(
    reg: TbaaRegistry,
    i: usize,
    j: usize,
)
    requires
        reg.wf(),
        i < reg@.len(),
        j < reg@.len(),
    ensures
        (reg@[i as int] != reg@[j as int]) <==> (TbaaNode::Descriptor(i) != TbaaNode::Descriptor(j)),
        (reg@[i as int] != reg@[j as int]) <==> (tag_of(i) != tag_of(j)),
        descriptor_parent(TbaaNode::Descriptor(i)) == Some(TbaaNode::Root),
        descriptor_parent(TbaaNode::Descriptor(j)) == Some(TbaaNode::Root),
{
}

} // verus!
