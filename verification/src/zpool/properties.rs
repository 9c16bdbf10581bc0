//! The property model: a pool's current settable attributes, a caller's
//! desired attributes, and the diff algorithm that plans the minimal set of
//! mutating calls needed to move from one to the other.

use vstd::prelude::*;

verus! {

/// What the pool does when it hits a catastrophic failure.
#[derive(Clone, Copy, Debug, PartialEq, Eq, Structural)]
pub enum FailMode {
    /// Block all I/O until the failure is cleared.
    Wait,
    /// Keep serving what can still be served.
    Continue,
    /// Panic the host.
    Panic,
}

/// An immutable snapshot of a pool's settable attributes, obtained fresh from
/// the backend on every read and never mutated in place.
#[derive(Clone, Debug, PartialEq, Eq)]
pub struct ZpoolProperties {
    /// Whether the pool grows automatically when its devices do.
    pub auto_expand: bool,
    /// Whether failed devices are replaced from spares automatically.
    pub auto_replace: bool,
    /// Where the pool's configuration is cached.
    pub cache_file: String,
    /// The administrator's free-text comment, if one is set.
    pub comment: Option<String>,
    /// Whether non-privileged users may have delegated permissions.
    pub delegation: bool,
    /// What the pool does when it hits a catastrophic failure.
    pub fail_mode: FailMode,
}

/// A caller's desired attributes for a pool, consumed once by the update
/// algorithm. An empty comment means "no comment set".
#[derive(Clone, Debug)]
pub struct ZpoolPropertiesWrite {
    /// Whether the pool grows automatically when its devices do.
    pub auto_expand: bool,
    /// Whether failed devices are replaced from spares automatically.
    pub auto_replace: bool,
    /// Where the pool's configuration is cached.
    pub cache_file: String,
    /// The administrator's free-text comment; empty means "no comment set".
    pub comment: String,
    /// Whether non-privileged users may have delegated permissions.
    pub delegation: bool,
    /// What the pool does when it hits a catastrophic failure.
    pub fail_mode: FailMode,
}

impl ZpoolProperties {
    /// The current comment, as an optional character sequence.
    pub open spec fn comment_view(&self) -> Option<Seq<char>> {
        match self.comment {
            Some(c) => Some(c@),
            None => None,
        }
    }
}

impl ZpoolPropertiesWrite {
    /// The desired comment with the "empty means absent" rule applied: an
    /// empty desired comment asks for the comment to be cleared, so it is
    /// compared against "no comment set" rather than against an empty string.
    pub open spec fn desired_comment(&self) -> Option<Seq<char>> {
        if self.comment@.len() == 0 {
            None
        } else {
            Some(self.comment@)
        }
    }
}

/// One mutating "set" call that the update algorithm asks a backend to issue,
/// carrying the attribute's desired value.
#[derive(Clone, Debug, PartialEq, Eq)]
pub enum PropertyUpdate {
    /// Set the auto-expand flag.
    AutoExpand(bool),
    /// Set the auto-replace flag.
    AutoReplace(bool),
    /// Set the cache-file path.
    CacheFile(String),
    /// Set the comment; an empty string clears it.
    Comment(String),
    /// Set the delegation flag.
    Delegation(bool),
    /// Set the fail-mode.
    FailMode(FailMode),
}

impl PropertyUpdate {
    /// The attribute name this update sets, as the external tool spells it.
    pub open spec fn key_spec(&self) -> Seq<char> {
        match self {
            PropertyUpdate::AutoExpand(_) => "autoexpand"@,
            PropertyUpdate::AutoReplace(_) => "autoreplace"@,
            PropertyUpdate::CacheFile(_) => "cachefile"@,
            PropertyUpdate::Comment(_) => "comment"@,
            PropertyUpdate::Delegation(_) => "delegation"@,
            PropertyUpdate::FailMode(_) => "failmode"@,
        }
    }

    /// The attribute name this update sets, as the external tool spells it.
    pub fn key(&self) -> (r: &'static str)
        ensures
            r@ == self.key_spec(),
    {
        match self {
            PropertyUpdate::AutoExpand(_) => "autoexpand",
            PropertyUpdate::AutoReplace(_) => "autoreplace",
            PropertyUpdate::CacheFile(_) => "cachefile",
            PropertyUpdate::Comment(_) => "comment",
            PropertyUpdate::Delegation(_) => "delegation",
            PropertyUpdate::FailMode(_) => "failmode",
        }
    }
}

/// Whether the auto-expand flag needs a set call.
pub open spec fn auto_expand_differs(c: &ZpoolProperties, d: &ZpoolPropertiesWrite) -> bool {
    c.auto_expand != d.auto_expand
}

/// Whether the auto-replace flag needs a set call.
pub open spec fn auto_replace_differs(c: &ZpoolProperties, d: &ZpoolPropertiesWrite) -> bool {
    c.auto_replace != d.auto_replace
}

/// Whether the cache-file path needs a set call.
pub open spec fn cache_file_differs(c: &ZpoolProperties, d: &ZpoolPropertiesWrite) -> bool {
    c.cache_file@ != d.cache_file@
}

/// Whether the comment needs a set call, under the "empty means absent" rule.
pub open spec fn comment_differs(c: &ZpoolProperties, d: &ZpoolPropertiesWrite) -> bool {
    c.comment_view() != d.desired_comment()
}

/// Whether the delegation flag needs a set call.
pub open spec fn delegation_differs(c: &ZpoolProperties, d: &ZpoolPropertiesWrite) -> bool {
    c.delegation != d.delegation
}

/// Whether the fail-mode needs a set call.
pub open spec fn fail_mode_differs(c: &ZpoolProperties, d: &ZpoolPropertiesWrite) -> bool {
    c.fail_mode != d.fail_mode
}

/// A one-element plan when the attribute differs, and an empty one otherwise.
pub open spec fn optional_update(u: PropertyUpdate, differs: bool) -> Seq<PropertyUpdate> {
    if differs {
        seq![u]
    } else {
        Seq::empty()
    }
}

/// The set calls that moving a pool from properties `c` to intent `d` takes:
/// one call for each attribute whose current value differs from the desired
/// one, in the fixed order auto-expand, auto-replace, cache-file, comment,
/// delegation, fail-mode, and no call for any attribute that already has its
/// desired value.
pub open spec fn update_plan(c: &ZpoolProperties, d: &ZpoolPropertiesWrite) -> Seq<PropertyUpdate> {
    optional_update(PropertyUpdate::AutoExpand(d.auto_expand), auto_expand_differs(c, d))
        + optional_update(PropertyUpdate::AutoReplace(d.auto_replace), auto_replace_differs(c, d))
        + optional_update(PropertyUpdate::CacheFile(d.cache_file), cache_file_differs(c, d))
        + optional_update(PropertyUpdate::Comment(d.comment), comment_differs(c, d))
        + optional_update(PropertyUpdate::Delegation(d.delegation), delegation_differs(c, d))
        + optional_update(PropertyUpdate::FailMode(d.fail_mode), fail_mode_differs(c, d))
}

/// How many attributes differ between a current snapshot and an intent.
pub open spec fn differing_count(c: &ZpoolProperties, d: &ZpoolPropertiesWrite) -> int {
    (if auto_expand_differs(c, d) { 1int } else { 0 })
        + (if auto_replace_differs(c, d) { 1int } else { 0 })
        + (if cache_file_differs(c, d) { 1int } else { 0 })
        + (if comment_differs(c, d) { 1int } else { 0 })
        + (if delegation_differs(c, d) { 1int } else { 0 })
        + (if fail_mode_differs(c, d) { 1int } else { 0 })
}

/// Whether an update carries the desired value of intent `d` for one of the
/// six settable attributes.
pub open spec fn is_desired_update(u: PropertyUpdate, d: &ZpoolPropertiesWrite) -> bool {
    ||| u == PropertyUpdate::AutoExpand(d.auto_expand)
    ||| u == PropertyUpdate::AutoReplace(d.auto_replace)
    ||| u == PropertyUpdate::CacheFile(d.cache_file)
    ||| u == PropertyUpdate::Comment(d.comment)
    ||| u == PropertyUpdate::Delegation(d.delegation)
    ||| u == PropertyUpdate::FailMode(d.fail_mode)
}

proof fn lemma_add_contains<A>(a: Seq<A>, b: Seq<A>, x: A)
    ensures
        (a + b).contains(x) <==> a.contains(x) || b.contains(x),
{
    if a.contains(x) {
        let i = choose|i: int| 0 <= i < a.len() && a[i] == x;
        assert((a + b)[i] == x);
    }
    if b.contains(x) {
        let i = choose|i: int| 0 <= i < b.len() && b[i] == x;
        assert((a + b)[a.len() + i] == x);
    }
    if (a + b).contains(x) {
        let i = choose|i: int| 0 <= i < (a + b).len() && (a + b)[i] == x;
        if i < a.len() {
            assert(a[i] == x);
        } else {
            assert(b[i - a.len()] == x);
        }
    }
}

proof fn lemma_optional_update_contains(u: PropertyUpdate, differs: bool, x: PropertyUpdate)
    ensures
        optional_update(u, differs).contains(x) <==> (differs && x == u),
{
    let s = optional_update(u, differs);
    if differs {
        assert(s[0] == u);
        if s.contains(x) {
            let i = choose|i: int| 0 <= i < s.len() && s[i] == x;
            assert(i == 0);
        }
    } else {
        if s.contains(x) {
            let i = choose|i: int| 0 <= i < s.len() && s[i] == x;
            assert(false);
        }
    }
}

proof fn lemma_plan_membership(c: &ZpoolProperties, d: &ZpoolPropertiesWrite, x: PropertyUpdate)
    ensures
        update_plan(c, d).contains(x) <==> {
            ||| (auto_expand_differs(c, d) && x == PropertyUpdate::AutoExpand(d.auto_expand))
            ||| (auto_replace_differs(c, d) && x == PropertyUpdate::AutoReplace(d.auto_replace))
            ||| (cache_file_differs(c, d) && x == PropertyUpdate::CacheFile(d.cache_file))
            ||| (comment_differs(c, d) && x == PropertyUpdate::Comment(d.comment))
            ||| (delegation_differs(c, d) && x == PropertyUpdate::Delegation(d.delegation))
            ||| (fail_mode_differs(c, d) && x == PropertyUpdate::FailMode(d.fail_mode))
        },
{
    let s1 = optional_update(PropertyUpdate::AutoExpand(d.auto_expand), auto_expand_differs(c, d));
    let s2 = optional_update(
        PropertyUpdate::AutoReplace(d.auto_replace),
        auto_replace_differs(c, d),
    );
    let s3 = optional_update(PropertyUpdate::CacheFile(d.cache_file), cache_file_differs(c, d));
    let s4 = optional_update(PropertyUpdate::Comment(d.comment), comment_differs(c, d));
    let s5 = optional_update(PropertyUpdate::Delegation(d.delegation), delegation_differs(c, d));
    let s6 = optional_update(PropertyUpdate::FailMode(d.fail_mode), fail_mode_differs(c, d));
    lemma_add_contains(s1 + s2 + s3 + s4 + s5, s6, x);
    lemma_add_contains(s1 + s2 + s3 + s4, s5, x);
    lemma_add_contains(s1 + s2 + s3, s4, x);
    lemma_add_contains(s1 + s2, s3, x);
    lemma_add_contains(s1, s2, x);
    lemma_optional_update_contains(
        PropertyUpdate::AutoExpand(d.auto_expand),
        auto_expand_differs(c, d),
        x,
    );
    lemma_optional_update_contains(
        PropertyUpdate::AutoReplace(d.auto_replace),
        auto_replace_differs(c, d),
        x,
    );
    lemma_optional_update_contains(
        PropertyUpdate::CacheFile(d.cache_file),
        cache_file_differs(c, d),
        x,
    );
    lemma_optional_update_contains(PropertyUpdate::Comment(d.comment), comment_differs(c, d), x);
    lemma_optional_update_contains(
        PropertyUpdate::Delegation(d.delegation),
        delegation_differs(c, d),
        x,
    );
    lemma_optional_update_contains(
        PropertyUpdate::FailMode(d.fail_mode),
        fail_mode_differs(c, d),
        x,
    );
}

/// Law: the update plan is minimal and exact. It holds one set call for an
/// attribute exactly when the attribute's current value differs from the
/// desired one, its length equals the number of differing attributes, and
/// every call in it carries a desired value — unrelated attributes are never
/// touched.
pub proof fn lemma_update_plan_exact(c: &ZpoolProperties, d: &ZpoolPropertiesWrite)
    ensures
        update_plan(c, d).len() == differing_count(c, d),
        update_plan(c, d).contains(PropertyUpdate::AutoExpand(d.auto_expand))
            <==> auto_expand_differs(c, d),
        update_plan(c, d).contains(PropertyUpdate::AutoReplace(d.auto_replace))
            <==> auto_replace_differs(c, d),
        update_plan(c, d).contains(PropertyUpdate::CacheFile(d.cache_file)) <==> cache_file_differs(
            c,
            d,
        ),
        update_plan(c, d).contains(PropertyUpdate::Comment(d.comment)) <==> comment_differs(c, d),
        update_plan(c, d).contains(PropertyUpdate::Delegation(d.delegation))
            <==> delegation_differs(c, d),
        update_plan(c, d).contains(PropertyUpdate::FailMode(d.fail_mode)) <==> fail_mode_differs(
            c,
            d,
        ),
        forall|i: int|
            0 <= i < update_plan(c, d).len() ==> is_desired_update(
                #[trigger] update_plan(c, d)[i],
                d,
            ),
{
    lemma_plan_membership(c, d, PropertyUpdate::AutoExpand(d.auto_expand));
    lemma_plan_membership(c, d, PropertyUpdate::AutoReplace(d.auto_replace));
    lemma_plan_membership(c, d, PropertyUpdate::CacheFile(d.cache_file));
    lemma_plan_membership(c, d, PropertyUpdate::Comment(d.comment));
    lemma_plan_membership(c, d, PropertyUpdate::Delegation(d.delegation));
    lemma_plan_membership(c, d, PropertyUpdate::FailMode(d.fail_mode));
    assert forall|i: int| 0 <= i < update_plan(c, d).len() implies is_desired_update(
        #[trigger] update_plan(c, d)[i],
        d,
    ) by {
        assert(update_plan(c, d).contains(update_plan(c, d)[i]));
        lemma_plan_membership(c, d, update_plan(c, d)[i]);
    }
}

/// Compute the set calls that moving a pool from properties `c` to intent `d`
/// takes: one for each differing attribute, in the fixed order auto-expand,
/// auto-replace, cache-file, comment, delegation, fail-mode.
pub fn diff_properties(c: &ZpoolProperties, d: &ZpoolPropertiesWrite) -> (r: Vec<PropertyUpdate>)
    ensures
        r@ == update_plan(c, d),
{
    let ghost s1 = optional_update(PropertyUpdate::AutoExpand(d.auto_expand), auto_expand_differs(c, d));
    let ghost s2 = optional_update(
        PropertyUpdate::AutoReplace(d.auto_replace),
        auto_replace_differs(c, d),
    );
    let ghost s3 = optional_update(PropertyUpdate::CacheFile(d.cache_file), cache_file_differs(c, d));
    let ghost s4 = optional_update(PropertyUpdate::Comment(d.comment), comment_differs(c, d));
    let ghost s5 = optional_update(PropertyUpdate::Delegation(d.delegation), delegation_differs(c, d));
    let ghost s6 = optional_update(PropertyUpdate::FailMode(d.fail_mode), fail_mode_differs(c, d));
    let mut plan: Vec<PropertyUpdate> = Vec::new();
    if c.auto_expand != d.auto_expand {
        plan.push(PropertyUpdate::AutoExpand(d.auto_expand));
    }
    assert(plan@ =~= s1);
    if c.auto_replace != d.auto_replace {
        plan.push(PropertyUpdate::AutoReplace(d.auto_replace));
    }
    assert(plan@ =~= s1 + s2);
    if !(c.cache_file == d.cache_file) {
        plan.push(PropertyUpdate::CacheFile(d.cache_file.clone()));
    }
    assert(plan@ =~= s1 + s2 + s3);
    let desired_empty = d.comment.as_str().is_empty();
    let comment_changes: bool = match &c.comment {
        Some(cur) => desired_empty || !(*cur == d.comment),
        None => !desired_empty,
    };
    assert(comment_changes == comment_differs(c, d));
    if comment_changes {
        plan.push(PropertyUpdate::Comment(d.comment.clone()));
    }
    assert(plan@ =~= s1 + s2 + s3 + s4);
    if c.delegation != d.delegation {
        plan.push(PropertyUpdate::Delegation(d.delegation));
    }
    assert(plan@ =~= s1 + s2 + s3 + s4 + s5);
    if c.fail_mode != d.fail_mode {
        plan.push(PropertyUpdate::FailMode(d.fail_mode));
    }
    assert(plan@ =~= s1 + s2 + s3 + s4 + s5 + s6);
    plan
}

} // verus!
