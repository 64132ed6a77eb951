//! The overlay planner: from a snapshot of the module directory tree to
//! an ordered sequence of merge rules.
//!
//! The caller snapshots each candidate entry of the module root once, at
//! planning time: its name, whether it is a directory, which disabling
//! marker files it holds, and which of the fixed target partitions have a
//! populated same-named subdirectory.  The planner discards entries that
//! are not directories, the three reserved names, and every module with a
//! disabling marker; sorts what remains by name in descending
//! lexicographic byte order — a priority ordering, processed-first modules
//! take precedence in the component's conflict resolution — and emits one
//! merge rule per populated partition, in the fixed partition order.

use vstd::prelude::*;
use vstd::string::StringExecFns;
use vstd::string::StringSliceAdditionalSpecFns;
use vstd::seq_lib::lemma_multiset_commutative;
use vstd::utf8::encode_utf8;

verus! {

/// Number of target partitions.
pub const PARTITION_COUNT: usize = 6;

/// Name of target partition `i`, in the fixed enumeration order.
pub open spec fn partition_name(i: int) -> Seq<char> {
    if i == 0 {
        "system"@
    } else if i == 1 {
        "vendor"@
    } else if i == 2 {
        "product"@
    } else if i == 3 {
        "system_ext"@
    } else if i == 4 {
        "odm"@
    } else {
        "oem"@
    }
}

/// The name of target partition `i`.
pub fn partition_label(i: usize) -> (s: &'static str)
    requires
        i < PARTITION_COUNT,
    ensures
        s@ == partition_name(i as int),
{
    if i == 0 {
        "system"
    } else if i == 1 {
        "vendor"
    } else if i == 2 {
        "product"
    } else if i == 3 {
        "system_ext"
    } else if i == 4 {
        "odm"
    } else {
        "oem"
    }
}

/// Lexicographic order on byte sequences: the empty sequence comes first,
/// and otherwise the first differing byte decides.
pub open spec fn lex_le(a: Seq<u8>, b: Seq<u8>) -> bool
    decreases a.len(),
{
    if a.len() == 0 {
        true
    } else if b.len() == 0 {
        false
    } else if a[0] < b[0] {
        true
    } else if a[0] > b[0] {
        false
    } else {
        lex_le(a.drop_first(), b.drop_first())
    }
}

/// A shared prefix does not decide the order: it can be dropped.
proof fn lemma_lex_le_skip(a: Seq<u8>, b: Seq<u8>, i: int)
    requires
        0 <= i <= a.len(),
        i <= b.len(),
        forall|j: int| 0 <= j < i ==> a[j] == b[j],
    ensures
        lex_le(a, b) == lex_le(a.skip(i), b.skip(i)),
    decreases i,
{
    if i > 0 {
        assert(a.skip(0) =~= a);
        assert(b.skip(0) =~= b);
        lemma_lex_le_skip(a, b, i - 1);
        assert(a.skip(i - 1).drop_first() =~= a.skip(i));
        assert(b.skip(i - 1).drop_first() =~= b.skip(i));
    } else {
        assert(a.skip(0) =~= a);
        assert(b.skip(0) =~= b);
    }
}

/// The order is total: two byte sequences always compare one way or the
/// other.
proof fn lemma_lex_le_total(a: Seq<u8>, b: Seq<u8>)
    ensures
        lex_le(a, b) || lex_le(b, a),
    decreases a.len(),
{
    if a.len() != 0 && b.len() != 0 && a[0] == b[0] {
        lemma_lex_le_total(a.drop_first(), b.drop_first());
    }
}

/// The order is reflexive.
proof fn lemma_lex_le_refl(a: Seq<u8>)
    ensures
        lex_le(a, a),
    decreases a.len(),
{
    if a.len() != 0 {
        lemma_lex_le_refl(a.drop_first());
    }
}

/// The order is transitive.
proof fn lemma_lex_le_trans(a: Seq<u8>, b: Seq<u8>, c: Seq<u8>)
    requires
        lex_le(a, b),
        lex_le(b, c),
    ensures
        lex_le(a, c),
    decreases a.len(),
{
    if a.len() != 0 && b.len() != 0 && c.len() != 0 && a[0] == b[0] && b[0] == c[0] {
        lemma_lex_le_trans(a.drop_first(), b.drop_first(), c.drop_first());
    }
}

/// Compares two byte slices in lexicographic order.
fn lex_le_bytes(a: &[u8], b: &[u8]) -> (r: bool)
    ensures
        r == lex_le(a@, b@),
{
    let n: usize = if a.len() <= b.len() {
        a.len()
    } else {
        b.len()
    };
    let mut i: usize = 0;
    while i < n
        invariant
            0 <= i <= n,
            n <= a@.len(),
            n <= b@.len(),
            forall|j: int| 0 <= j < i ==> a@[j] == b@[j],
        decreases n - i,
    {
        if a[i] < b[i] {
            proof {
                lemma_lex_le_skip(a@, b@, i as int);
            }
            return true;
        }
        if a[i] > b[i] {
            proof {
                lemma_lex_le_skip(a@, b@, i as int);
            }
            return false;
        }
        i += 1;
    }
    proof {
        lemma_lex_le_skip(a@, b@, n as int);
    }
    a.len() <= b.len()
}

/// One candidate entry of the module root, snapshotted at planning time.
/// Each `has_` partition field records whether the module has a
/// same-named subdirectory holding at least one entry.
pub struct ModuleInfo {
    /// The entry's name; it is used only for ordering and path building.
    pub name: String,
    /// Whether the entry is itself a directory.
    pub is_dir: bool,
    /// Whether the module holds a `disable` marker file.
    pub has_disable: bool,
    /// Whether the module holds a `remove` marker file.
    pub has_remove: bool,
    /// Whether the module holds a `skip_mount` marker file.
    pub has_skip_mount: bool,
    pub has_system: bool,
    pub has_vendor: bool,
    pub has_product: bool,
    pub has_system_ext: bool,
    pub has_odm: bool,
    pub has_oem: bool,
}

/// Mathematical shape of a module snapshot.
pub struct ModuleModel {
    pub name: Seq<char>,
    pub is_dir: bool,
    pub has_disable: bool,
    pub has_remove: bool,
    pub has_skip_mount: bool,
    pub has_system: bool,
    pub has_vendor: bool,
    pub has_product: bool,
    pub has_system_ext: bool,
    pub has_odm: bool,
    pub has_oem: bool,
}

impl View for ModuleInfo {
    type V = ModuleModel;

    open spec fn view(&self) -> ModuleModel {
        ModuleModel {
            name: self.name@,
            is_dir: self.is_dir,
            has_disable: self.has_disable,
            has_remove: self.has_remove,
            has_skip_mount: self.has_skip_mount,
            has_system: self.has_system,
            has_vendor: self.has_vendor,
            has_product: self.has_product,
            has_system_ext: self.has_system_ext,
            has_odm: self.has_odm,
            has_oem: self.has_oem,
        }
    }
}

/// Whether partition `i` of the module is populated.
pub open spec fn populated(m: ModuleModel, i: int) -> bool {
    if i == 0 {
        m.has_system
    } else if i == 1 {
        m.has_vendor
    } else if i == 2 {
        m.has_product
    } else if i == 3 {
        m.has_system_ext
    } else if i == 4 {
        m.has_odm
    } else {
        m.has_oem
    }
}

impl ModuleInfo {
    /// Whether partition `i` of this module is populated.
    pub fn populated_at(&self, i: usize) -> (r: bool)
        requires
            i < PARTITION_COUNT,
        ensures
            r == populated(self@, i as int),
    {
        if i == 0 {
            self.has_system
        } else if i == 1 {
            self.has_vendor
        } else if i == 2 {
            self.has_product
        } else if i == 3 {
            self.has_system_ext
        } else if i == 4 {
            self.has_odm
        } else {
            self.has_oem
        }
    }
}

/// The three reserved entry names the planner never treats as modules:
/// the control component's own directory, the filesystem's lost-and-found
/// artifact, and version-control metadata.
pub open spec fn reserved_name(n: Seq<char>) -> bool {
    n == "hymo"@ || n == "lost+found"@ || n == ".git"@
}

/// Whether a snapshotted entry contributes to the plan: a directory,
/// not reserved, and free of all three disabling markers.
pub open spec fn module_eligible(m: ModuleModel) -> bool {
    m.is_dir && !reserved_name(m.name) && !m.has_disable && !m.has_remove && !m.has_skip_mount
}

/// Whether this snapshotted entry contributes to the plan.
pub fn module_eligible_exec(m: &ModuleInfo) -> (r: bool)
    ensures
        r == module_eligible(m@),
{
    if !m.is_dir || m.has_disable || m.has_remove || m.has_skip_mount {
        return false;
    }
    let hymo: String = "hymo".to_owned();
    let lost_found: String = "lost+found".to_owned();
    let git: String = ".git".to_owned();
    !(m.name == hymo || m.name == lost_found || m.name == git)
}

/// The eligible modules of a snapshot, in their original order.
pub open spec fn eligible_modules(ms: Seq<ModuleModel>) -> Seq<ModuleModel>
    decreases ms.len(),
{
    if ms.len() == 0 {
        Seq::empty()
    } else {
        let rest = eligible_modules(ms.drop_last());
        if module_eligible(ms.last()) {
            rest.push(ms.last())
        } else {
            rest
        }
    }
}

/// Eligibility filtering distributes over concatenation.
proof fn lemma_eligible_modules_add(a: Seq<ModuleModel>, b: Seq<ModuleModel>)
    ensures
        eligible_modules(a + b) == eligible_modules(a) + eligible_modules(b),
    decreases b.len(),
{
    if b.len() == 0 {
        assert(a + b =~= a);
        assert(eligible_modules(a) + eligible_modules(b) =~= eligible_modules(a));
    } else {
        assert((a + b).drop_last() =~= a + b.drop_last());
        assert((a + b).last() == b.last());
        lemma_eligible_modules_add(a, b.drop_last());
        if module_eligible(b.last()) {
            assert((eligible_modules(a) + eligible_modules(b.drop_last())).push(b.last())
                =~= eligible_modules(a) + eligible_modules(b.drop_last()).push(b.last()));
        }
    }
}

/// The sort key of a module: the byte encoding of its name.
pub open spec fn module_key(m: ModuleModel) -> Seq<u8> {
    encode_utf8(m.name)
}

/// Whether `a` sorts no earlier than `b` in the descending order, that
/// is, the key of `a` is at most the key of `b`.
pub open spec fn name_le(a: ModuleModel, b: ModuleModel) -> bool {
    lex_le(module_key(a), module_key(b))
}

/// Compares two modules by name key.
fn name_le_exec(a: &ModuleInfo, b: &ModuleInfo) -> (r: bool)
    ensures
        r == name_le(a@, b@),
{
    lex_le_bytes(a.name.as_str().as_bytes(), b.name.as_str().as_bytes())
}

/// Stable insertion into a sequence sorted in descending key order: the
/// new module goes behind every module whose key is at least its own, so
/// equal keys keep their arrival order.
pub open spec fn insert_desc(s: Seq<ModuleModel>, x: ModuleModel) -> Seq<ModuleModel>
    decreases s.len(),
{
    if s.len() == 0 {
        seq![x]
    } else if name_le(x, s[0]) {
        seq![s[0]] + insert_desc(s.drop_first(), x)
    } else {
        seq![x] + s
    }
}

/// Stable insertion sort in descending key order, processing the
/// snapshot left to right.
pub open spec fn sort_desc(s: Seq<ModuleModel>) -> Seq<ModuleModel>
    decreases s.len(),
{
    if s.len() == 0 {
        Seq::empty()
    } else {
        insert_desc(sort_desc(s.drop_last()), s.last())
    }
}

/// Where the insertion lands: at the first position whose module's key is
/// strictly below the new module's.
proof fn lemma_insert_desc_at(s: Seq<ModuleModel>, x: ModuleModel, j: int)
    requires
        0 <= j <= s.len(),
        forall|k: int| 0 <= k < j ==> name_le(x, #[trigger] s[k]),
        j == s.len() || !name_le(x, s[j]),
    ensures
        insert_desc(s, x) == s.take(j) + seq![x] + s.skip(j),
    decreases j,
{
    if j == 0 {
        if s.len() == 0 {
            assert(insert_desc(s, x) =~= s.take(0) + seq![x] + s.skip(0));
        } else {
            assert(seq![x] + s =~= s.take(0) + seq![x] + s.skip(0));
        }
    } else {
        lemma_insert_desc_at(s.drop_first(), x, j - 1);
        assert(s.drop_first().take(j - 1) =~= s.skip(1).take(j - 1));
        assert(seq![s[0]] + (s.drop_first().take(j - 1) + seq![x] + s.drop_first().skip(j - 1))
            =~= s.take(j) + seq![x] + s.skip(j));
    }
}

/// A sequence of modules sorted in descending key order.
pub open spec fn sorted_desc(s: Seq<ModuleModel>) -> bool {
    forall|i: int, j: int| 0 <= i < j < s.len() ==> name_le(#[trigger] s[j], #[trigger] s[i])
}

/// Inserting into a sequence sorted in descending key order keeps it
/// sorted.
proof fn lemma_insert_desc_sorted(s: Seq<ModuleModel>, x: ModuleModel)
    requires
        sorted_desc(s),
    ensures
        sorted_desc(insert_desc(s, x)),
    decreases s.len(),
{
    if s.len() != 0 && name_le(x, s[0]) {
        assert(sorted_desc(s.drop_first()));
        lemma_insert_desc_sorted(s.drop_first(), x);
        let t = seq![s[0]] + insert_desc(s.drop_first(), x);
        assert forall|i: int, j: int| 0 <= i < j < t.len() implies name_le(t[j], t[i]) by {
            lemma_insert_desc_le(s.drop_first(), x, s[0]);
        }
    } else if s.len() != 0 {
        let t = seq![x] + s;
        assert forall|i: int, j: int| 0 <= i < j < t.len() implies name_le(t[j], t[i]) by {
            lemma_lex_le_total(module_key(x), module_key(s[0]));
            if 1 <= j && i == 0 {
                lemma_lex_le_refl(module_key(s[0]));
                lemma_lex_le_trans(module_key(s[j - 1]), module_key(s[0]), module_key(x));
            }
        }
    }
}

/// Every module of an insertion's result is either the inserted one or
/// bounded by any bound on the originals.
proof fn lemma_insert_desc_le(s: Seq<ModuleModel>, x: ModuleModel, bound: ModuleModel)
    requires
        name_le(x, bound),
        forall|k: int| 0 <= k < s.len() ==> name_le(#[trigger] s[k], bound),
    ensures
        forall|k: int|
            0 <= k < insert_desc(s, x).len() ==> name_le(#[trigger] insert_desc(s, x)[k], bound),
    decreases s.len(),
{
    if s.len() != 0 && name_le(x, s[0]) {
        lemma_insert_desc_le(s.drop_first(), x, bound);
        let t = seq![s[0]] + insert_desc(s.drop_first(), x);
        assert forall|k: int| 0 <= k < t.len() implies name_le(#[trigger] t[k], bound) by {
            if k >= 1 {
                assert(t[k] == insert_desc(s.drop_first(), x)[k - 1]);
            }
        }
    } else {
        let t = if s.len() == 0 {
            seq![x]
        } else {
            seq![x] + s
        };
        assert forall|k: int| 0 <= k < t.len() implies name_le(#[trigger] t[k], bound) by {
            if k >= 1 {
                assert(t[k] == s[k - 1]);
            }
        }
    }
}

/// The sort leaves a sequence in descending key order.
pub proof fn lemma_sort_desc_sorted(s: Seq<ModuleModel>)
    ensures
        sorted_desc(sort_desc(s)),
    decreases s.len(),
{
    if s.len() != 0 {
        lemma_sort_desc_sorted(s.drop_last());
        lemma_insert_desc_sorted(sort_desc(s.drop_last()), s.last());
    }
}

/// Insertion adds exactly the inserted module to the contents.
proof fn lemma_insert_desc_multiset(s: Seq<ModuleModel>, x: ModuleModel)
    ensures
        insert_desc(s, x).to_multiset() =~= s.to_multiset().insert(x),
    decreases s.len(),
{
    broadcast use vstd::seq_lib::group_to_multiset_ensures;
    broadcast use vstd::multiset::group_multiset_axioms;

    if s.len() == 0 {
        assert(seq![x] =~= s.push(x));
    } else if name_le(x, s[0]) {
        lemma_insert_desc_multiset(s.drop_first(), x);
        lemma_multiset_commutative(seq![s[0]], insert_desc(s.drop_first(), x));
        lemma_multiset_commutative(seq![s[0]], s.drop_first());
        assert(s =~= seq![s[0]] + s.drop_first());
        assert(seq![s[0]].to_multiset().add(s.drop_first().to_multiset().insert(x))
            =~= (seq![s[0]].to_multiset().add(s.drop_first().to_multiset())).insert(x));
    } else {
        lemma_multiset_commutative(seq![x], s);
        assert(seq![x] =~= Seq::<ModuleModel>::empty().push(x));
        assert(Seq::<ModuleModel>::empty().to_multiset().insert(x).add(s.to_multiset())
            =~= s.to_multiset().insert(x));
    }
}

/// The sort only reorders: the sorted sequence holds exactly the modules
/// it was given, each as often as it was given.
pub proof fn lemma_sort_desc_permutes(s: Seq<ModuleModel>)
    ensures
        sort_desc(s).to_multiset() == s.to_multiset(),
    decreases s.len(),
{
    broadcast use vstd::seq_lib::group_to_multiset_ensures;

    if s.len() != 0 {
        lemma_sort_desc_permutes(s.drop_last());
        lemma_insert_desc_multiset(sort_desc(s.drop_last()), s.last());
        assert(s =~= s.drop_last().push(s.last()));
    }
}

/// One merge rule: overlay the source directory's contents onto the
/// target mount point.
pub struct MergeRule {
    /// Absolute path of the module's partition subdirectory.
    pub source: String,
    /// The partition mount point, a slash followed by the partition name.
    pub target: String,
}

/// Mathematical shape of a merge rule.
pub struct MergeRuleModel {
    pub source: Seq<char>,
    pub target: Seq<char>,
}

impl View for MergeRule {
    type V = MergeRuleModel;

    open spec fn view(&self) -> MergeRuleModel {
        MergeRuleModel { source: self.source@, target: self.target@ }
    }
}

/// The merge rule of module `m` for partition `i` under the given module
/// root.
pub open spec fn rule_for(root: Seq<char>, m: ModuleModel, i: int) -> MergeRuleModel {
    MergeRuleModel {
        source: root + "/"@ + m.name + "/"@ + partition_name(i),
        target: "/"@ + partition_name(i),
    }
}

/// The rules of module `m` for the first `n` partitions, in partition
/// order: one rule per populated partition.
pub open spec fn module_rules_upto(root: Seq<char>, m: ModuleModel, n: int) -> Seq<MergeRuleModel>
    decreases n,
{
    if n <= 0 {
        Seq::empty()
    } else {
        module_rules_upto(root, m, n - 1) + if populated(m, n - 1) {
            seq![rule_for(root, m, n - 1)]
        } else {
            Seq::empty()
        }
    }
}

/// All rules of module `m`, one per populated partition, in partition
/// order.
pub open spec fn module_rules(root: Seq<char>, m: ModuleModel) -> Seq<MergeRuleModel> {
    module_rules_upto(root, m, PARTITION_COUNT as int)
}

/// The rules of a sequence of modules, module by module.
pub open spec fn rules_for_modules(root: Seq<char>, ms: Seq<ModuleModel>) -> Seq<MergeRuleModel>
    decreases ms.len(),
{
    if ms.len() == 0 {
        Seq::empty()
    } else {
        rules_for_modules(root, ms.drop_last()) + module_rules(root, ms.last())
    }
}

/// The full plan of a snapshot: the rules of its eligible modules, in
/// descending name order.
pub open spec fn plan_spec(root: Seq<char>, ms: Seq<ModuleModel>) -> Seq<MergeRuleModel> {
    rules_for_modules(root, sort_desc(eligible_modules(ms)))
}

/// Builds the absolute source path `root/name/partition`.
fn build_source(root: &str, name: &str, label: &str) -> (s: String)
    ensures
        s@ == root@ + "/"@ + name@ + "/"@ + label@,
{
    let mut s = String::new();
    s.append(root);
    s.append("/");
    s.append(name);
    s.append("/");
    s.append(label);
    assert(s@ =~= root@ + "/"@ + name@ + "/"@ + label@);
    s
}

/// Builds the target mount point `/partition`.
fn build_target(label: &str) -> (s: String)
    ensures
        s@ == "/"@ + label@,
{
    let mut s = String::new();
    s.append("/");
    s.append(label);
    assert(s@ =~= "/"@ + label@);
    s
}

/// Computes the plan of a snapshot: exactly one merge rule for each
/// populated partition of each eligible module, modules in descending
/// name order, partitions in the fixed enumeration order.
pub fn plan_overlay(root: &str, modules: Vec<ModuleInfo>) -> (rules: Vec<MergeRule>)
    ensures
        rules@.map_values(|r: MergeRule| r@) == plan_spec(
            root@,
            modules@.map_values(|m: ModuleInfo| m@),
        ),
{
    let ghost orig: Seq<ModuleModel> = modules@.map_values(|m: ModuleInfo| m@);
    let mut rest = modules;
    let mut sorted: Vec<ModuleInfo> = Vec::new();
    while rest.len() > 0
        invariant
            rest@.len() <= orig.len(),
            rest@.map_values(|m: ModuleInfo| m@) == orig.skip(orig.len() - rest@.len()),
            sorted@.map_values(|m: ModuleInfo| m@) == sort_desc(
                eligible_modules(orig.take(orig.len() - rest@.len())),
            ),
        decreases rest@.len(),
    {
        let ghost k = orig.len() - rest@.len();
        let ghost old_rest = rest@;
        let ghost old_sorted_m = sorted@.map_values(|m: ModuleInfo| m@);
        let m = rest.remove(0);
        proof {
            assert(old_rest.map_values(|m: ModuleInfo| m@)[0] == orig[k]);
            assert(m@ == orig[k]);
            assert(rest@.map_values(|m: ModuleInfo| m@) =~= old_rest.map_values(
                |m: ModuleInfo| m@,
            ).drop_first());
            assert(rest@.map_values(|m: ModuleInfo| m@) =~= orig.skip(orig.len() - rest@.len()));
            assert(orig.take(k + 1).drop_last() =~= orig.take(k));
            assert(orig.take(k + 1).last() == orig[k]);
        }
        if module_eligible_exec(&m) {
            let mut j: usize = 0;
            while j < sorted.len() && name_le_exec(&m, &sorted[j])
                invariant
                    0 <= j <= sorted@.len(),
                    sorted@.map_values(|mm: ModuleInfo| mm@) == old_sorted_m,
                    forall|t: int| 0 <= t < j ==> name_le(m@, #[trigger] old_sorted_m[t]),
                decreases sorted@.len() - j,
            {
                proof {
                    assert(sorted@[j as int]@ == old_sorted_m[j as int]);
                }
                j += 1;
            }
            proof {
                lemma_insert_desc_at(old_sorted_m, m@, j as int);
            }
            sorted.insert(j, m);
            proof {
                assert(sorted@.map_values(|mm: ModuleInfo| mm@) =~= old_sorted_m.take(j as int)
                    + seq![orig[k]] + old_sorted_m.skip(j as int));
                assert(eligible_modules(orig.take(k + 1)) == eligible_modules(orig.take(k)).push(
                    orig[k],
                ));
                assert(sort_desc(eligible_modules(orig.take(k)).push(orig[k]))
                    == insert_desc(sort_desc(eligible_modules(orig.take(k))), orig[k])) by {
                    assert(eligible_modules(orig.take(k)).push(orig[k]).drop_last()
                        =~= eligible_modules(orig.take(k)));
                }
            }
        } else {
            proof {
                assert(eligible_modules(orig.take(k + 1)) == eligible_modules(orig.take(k)));
            }
        }
    }
    proof {
        assert(orig.take(orig.len() - rest@.len()) =~= orig);
    }
    let ghost final_sorted: Seq<ModuleModel> = sort_desc(eligible_modules(orig));
    let mut rules: Vec<MergeRule> = Vec::new();
    let mut u: usize = 0;
    while u < sorted.len()
        invariant
            0 <= u <= sorted@.len(),
            sorted@.map_values(|m: ModuleInfo| m@) == final_sorted,
            rules@.map_values(|r: MergeRule| r@) == rules_for_modules(
                root@,
                final_sorted.take(u as int),
            ),
        decreases sorted@.len() - u,
    {
        let ghost mm = final_sorted[u as int];
        proof {
            assert(sorted@[u as int]@ == mm);
        }
        let mut p: usize = 0;
        while p < PARTITION_COUNT
            invariant
                0 <= p <= PARTITION_COUNT,
                u < sorted@.len(),
                sorted@.map_values(|m: ModuleInfo| m@) == final_sorted,
                mm == final_sorted[u as int],
                sorted@[u as int]@ == mm,
                rules@.map_values(|r: MergeRule| r@) == rules_for_modules(
                    root@,
                    final_sorted.take(u as int),
                ) + module_rules_upto(root@, mm, p as int),
            decreases PARTITION_COUNT - p,
        {
            let ghost old_rules_m = rules@.map_values(|r: MergeRule| r@);
            if sorted[u].populated_at(p) {
                let label = partition_label(p);
                let source = build_source(root, sorted[u].name.as_str(), label);
                let target = build_target(label);
                let rule = MergeRule { source, target };
                proof {
                    assert(rule@ == rule_for(root@, mm, p as int));
                }
                rules.push(rule);
                proof {
                    assert(rules@.map_values(|r: MergeRule| r@) =~= old_rules_m.push(
                        rule_for(root@, mm, p as int),
                    ));
                    assert(old_rules_m.push(rule_for(root@, mm, p as int)) =~= rules_for_modules(
                        root@,
                        final_sorted.take(u as int),
                    ) + module_rules_upto(root@, mm, p as int + 1));
                }
            } else {
                proof {
                    assert(old_rules_m =~= rules_for_modules(root@, final_sorted.take(u as int))
                        + module_rules_upto(root@, mm, p as int + 1));
                }
            }
            p += 1;
        }
        proof {
            assert(final_sorted.take(u as int + 1).drop_last() =~= final_sorted.take(u as int));
            assert(final_sorted.take(u as int + 1).last() == mm);
            assert(rules_for_modules(root@, final_sorted.take(u as int)) + module_rules(root@, mm)
                =~= rules_for_modules(root@, final_sorted.take(u as int + 1)));
        }
        u += 1;
    }
    proof {
        assert(final_sorted.take(final_sorted.len() as int) =~= final_sorted);
    }
    rules
}

/// A module carrying a disabling marker contributes nothing: the plan of
/// a snapshot with it is the plan of the snapshot without it, whatever
/// partitions it has populated.
pub proof fn lemma_disabled_module_contributes_nothing(
    root: Seq<char>,
    pre: Seq<ModuleModel>,
    m: ModuleModel,
    post: Seq<ModuleModel>,
)
    requires
        m.has_disable || m.has_remove || m.has_skip_mount,
    ensures
        plan_spec(root, pre + seq![m] + post) == plan_spec(root, pre + post),
{
    lemma_eligible_modules_add(pre + seq![m], post);
    lemma_eligible_modules_add(pre, seq![m]);
    lemma_eligible_modules_add(pre, post);
    assert(seq![m].drop_last() =~= Seq::<ModuleModel>::empty());
    assert(eligible_modules(Seq::<ModuleModel>::empty()) == Seq::<ModuleModel>::empty());
    assert(!module_eligible(m));
    assert(eligible_modules(seq![m]) =~= Seq::<ModuleModel>::empty());
    assert(eligible_modules(pre) + eligible_modules(seq![m]) =~= eligible_modules(pre));
    assert(eligible_modules(pre + seq![m] + post) =~= eligible_modules(pre + post));
}

} // verus!
