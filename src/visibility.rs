//! Visibility paths.
//!
//! Mutable access to the inner field must not widen the visibility that the
//! wrapper type itself promises. To decide that, each visibility is turned
//! into a path of components, and two paths are compared by prefix: a shorter
//! path is a broader scope than a longer one that starts with it.
//!
//! Paths anchored at `self` or `super` are never resolved against absolute
//! ones; such a comparison is reported as undecidable instead of guessed.

use vstd::prelude::*;

verus! {

/// A visibility as written on a declaration or a field.
pub enum Scope {
    /// `pub`: visible everywhere.
    Public,
    /// `pub(crate)`: visible throughout the enclosing crate.
    Crate,
    /// No modifier: visible only in the declaring module.
    Inherited,
    /// `pub(in path)`, `pub(self)` or `pub(super)`: the segments of the path,
    /// unresolved, with a leading `::` dropped.
    Restricted(Vec<String>),
}

/// One component of a normalized visibility path.
#[derive(Debug)]
pub enum PathComponent {
    Pub,
    Crate,
    InSelf,
    InSuper,
    Mod(String),
}

/// What a `PathComponent` denotes, with the module name as characters.
pub enum ComponentView {
    Pub,
    Crate,
    InSelf,
    InSuper,
    Mod(Seq<char>),
}

impl View for PathComponent {
    type V = ComponentView;

    open spec fn view(&self) -> ComponentView {
        match self {
            PathComponent::Pub => ComponentView::Pub,
            PathComponent::Crate => ComponentView::Crate,
            PathComponent::InSelf => ComponentView::InSelf,
            PathComponent::InSuper => ComponentView::InSuper,
            PathComponent::Mod(name) => ComponentView::Mod(name@),
        }
    }
}

impl PartialEq for PathComponent {
    fn eq(&self, other: &PathComponent) -> (r: bool)
        ensures
            r == (self@ == other@),
    {
        match (self, other) {
            (PathComponent::Pub, PathComponent::Pub) => true,
            (PathComponent::Crate, PathComponent::Crate) => true,
            (PathComponent::InSelf, PathComponent::InSelf) => true,
            (PathComponent::InSuper, PathComponent::InSuper) => true,
            (PathComponent::Mod(a), PathComponent::Mod(b)) => a.eq(b),
            _ => false,
        }
    }
}

impl vstd::std_specs::cmp::PartialEqSpecImpl for PathComponent {
    open spec fn obeys_eq_spec() -> bool {
        true
    }

    open spec fn eq_spec(&self, other: &PathComponent) -> bool {
        self@ == other@
    }
}

/// How the visibility of an inner field relates to that of its declaration.
#[derive(Debug, Clone, Copy, PartialEq, Eq, Structural)]
pub enum FieldVisibility {
    /// The field is *at least* as visible as the declaration.
    Visible,
    /// The field is less visible than the declaration.
    Restricted,
    /// The two paths start from different points (one at `self`, the other
    /// at the crate root, say), so they cannot be compared.
    CantDetermine,
}

/// The point a visibility path starts from. Only paths with the same anchor
/// are comparable.
#[derive(Debug, Clone, Copy, PartialEq, Eq, Structural)]
pub enum Anchor {
    /// `pub`, `pub(crate)` and `pub(in ::a::b)`: one spine from the root.
    Absolute,
    /// Paths under `self`.
    SelfRelative,
    /// Paths under `super`.
    ParentRelative,
}

/// The components that a sequence of path components denotes.
pub open spec fn components(p: Seq<PathComponent>) -> Seq<ComponentView> {
    p.map_values(|c: PathComponent| c@)
}

/// The characters of each path segment.
pub open spec fn segment_views(segments: Seq<String>) -> Seq<Seq<char>> {
    segments.map_values(|s: String| s@)
}

/// The components that a restricted visibility with these segments
/// normalizes to: `self` and `super` anchor the path where they stand first;
/// any other first segment is a module under the crate root, reached by way of
/// `pub` and `pub(crate)`.
pub open spec fn restricted_path(segments: Seq<Seq<char>>) -> Seq<ComponentView> {
    if segments.len() == 0 {
        Seq::empty()
    } else {
        let head = if segments[0] == "self"@ {
            seq![ComponentView::InSelf]
        } else if segments[0] == "super"@ {
            seq![ComponentView::InSuper]
        } else {
            seq![ComponentView::Pub, ComponentView::Crate, ComponentView::Mod(segments[0])]
        };
        head + segments.drop_first().map_values(|s: Seq<char>| ComponentView::Mod(s))
    }
}

/// The normalized path of a visibility.
pub open spec fn scope_path(scope: Scope) -> Seq<ComponentView> {
    match scope {
        Scope::Public => seq![ComponentView::Pub],
        Scope::Crate => seq![ComponentView::Pub, ComponentView::Crate],
        Scope::Inherited => seq![ComponentView::InSelf],
        Scope::Restricted(segments) => restricted_path(segment_views(segments@)),
    }
}

/// The anchor of a path whose first component is `c`.
pub open spec fn anchor(c: ComponentView) -> Anchor {
    match c {
        ComponentView::InSelf => Anchor::SelfRelative,
        ComponentView::InSuper => Anchor::ParentRelative,
        _ => Anchor::Absolute,
    }
}

/// Whether two paths start from the same point; an empty path starts nowhere.
pub open spec fn comparable(a: Seq<ComponentView>, b: Seq<ComponentView>) -> bool {
    a.len() > 0 && b.len() > 0 && anchor(a[0]) == anchor(b[0])
}

/// Whether `a` is a prefix of `b`, that is a scope at least as broad.
pub open spec fn is_prefix(a: Seq<ComponentView>, b: Seq<ComponentView>) -> bool {
    a.len() <= b.len() && b.take(a.len() as int) == a
}

/// How `inner` relates to `outer`: visible when `outer` is a prefix of
/// `inner`, restricted when it is not, undecidable when the two paths have
/// different anchors.
pub open spec fn containment(outer: Seq<ComponentView>, inner: Seq<ComponentView>) -> FieldVisibility {
    if !comparable(outer, inner) {
        FieldVisibility::CantDetermine
    } else if is_prefix(outer, inner) {
        FieldVisibility::Visible
    } else {
        FieldVisibility::Restricted
    }
}

/// A path anchored at `self` and an absolute path cannot be compared, in
/// either order.
pub proof fn lemma_self_relative_absolute_indeterminate(
    self_relative: Seq<ComponentView>,
    absolute: Seq<ComponentView>,
)
    requires
        self_relative.len() > 0,
        anchor(self_relative[0]) == Anchor::SelfRelative,
        absolute.len() > 0,
        anchor(absolute[0]) == Anchor::Absolute,
    ensures
        containment(self_relative, absolute) == FieldVisibility::CantDetermine,
        containment(absolute, self_relative) == FieldVisibility::CantDetermine,
{
}

/// Containment is reflexive: the path of every visibility that normalizes to
/// a non-empty path contains itself.
pub proof fn lemma_containment_reflexive(scope: Scope)
    requires
        scope_path(scope).len() > 0,
    ensures
        containment(scope_path(scope), scope_path(scope)) == FieldVisibility::Visible,
{
    let p = scope_path(scope);
    assert(p.take(p.len() as int) =~= p);
}

/// Builds a string with the characters of a literal.
pub(crate) fn owned(s: &str) -> (r: String)
    ensures
        r@ == s@,
{
    s.to_owned()
}

/// Normalizes a visibility into its path.
pub fn to_path(scope: &Scope) -> (r: Vec<PathComponent>)
    ensures
        components(r@) == scope_path(*scope),
{
    match scope {
        Scope::Public => {
            let r = vec![PathComponent::Pub];
            assert(components(r@) =~= scope_path(*scope));
            r
        },
        Scope::Crate => {
            let r = vec![PathComponent::Pub, PathComponent::Crate];
            assert(components(r@) =~= scope_path(*scope));
            r
        },
        Scope::Inherited => {
            let r = vec![PathComponent::InSelf];
            assert(components(r@) =~= scope_path(*scope));
            r
        },
        Scope::Restricted(segments) => to_path_restricted(segments),
    }
}

/// Normalizes the segments of a restricted visibility into its path.
pub fn to_path_restricted(segments: &Vec<String>) -> (r: Vec<PathComponent>)
    ensures
        components(r@) == restricted_path(segment_views(segments@)),
{
    let ghost views = segment_views(segments@);
    if segments.len() == 0 {
        let r: Vec<PathComponent> = Vec::new();
        assert(components(r@) =~= restricted_path(views));
        return r;
    }
    let first = &segments[0];
    let mut result: Vec<PathComponent>;
    if first.eq(&owned("self")) {
        result = vec![PathComponent::InSelf];
    } else if first.eq(&owned("super")) {
        result = vec![PathComponent::InSuper];
    } else {
        result = vec![PathComponent::Pub, PathComponent::Crate, PathComponent::Mod(first.clone())];
    }
    let ghost head = components(result@);
    let ghost rest = views.drop_first().map_values(|s: Seq<char>| ComponentView::Mod(s));
    assert(head + rest == restricted_path(views));
    let mut i: usize = 1;
    while i < segments.len()
        invariant
            1 <= i <= segments@.len(),
            views == segment_views(segments@),
            rest == views.drop_first().map_values(|s: Seq<char>| ComponentView::Mod(s)),
            components(result@) == head + rest.take(i - 1),
        decreases segments@.len() - i,
    {
        let ghost before = result@;
        result.push(PathComponent::Mod(segments[i].clone()));
        assert(components(result@) =~= components(before).push(rest[i - 1]));
        assert(rest.take(i as int) =~= rest.take(i - 1).push(rest[i - 1]));
        i = i + 1;
    }
    assert(rest.take(i - 1) =~= rest);
    result
}

/// The anchor of a path whose first component is `c`.
fn anchor_of(c: &PathComponent) -> (r: Anchor)
    ensures
        r == anchor(c@),
{
    match c {
        PathComponent::InSelf => Anchor::SelfRelative,
        PathComponent::InSuper => Anchor::ParentRelative,
        _ => Anchor::Absolute,
    }
}

/// Compares two normalized paths: `Visible` when `outer` is a prefix of
/// `inner`, `Restricted` when it is not, `CantDetermine` when their anchors
/// differ or one of them is empty.
pub fn contains(outer: &Vec<PathComponent>, inner: &Vec<PathComponent>) -> (r: FieldVisibility)
    ensures
        r == containment(components(outer@), components(inner@)),
{
    let ghost o = components(outer@);
    let ghost n = components(inner@);
    if outer.len() == 0 || inner.len() == 0 {
        return FieldVisibility::CantDetermine;
    }
    assert(o[0] == outer@[0]@ && n[0] == inner@[0]@);
    if anchor_of(&outer[0]) != anchor_of(&inner[0]) {
        return FieldVisibility::CantDetermine;
    }
    if outer.len() > inner.len() {
        return FieldVisibility::Restricted;
    }
    let mut i: usize = 0;
    while i < outer.len()
        invariant
            0 <= i <= outer@.len() <= inner@.len(),
            o == components(outer@),
            n == components(inner@),
            comparable(o, n),
            forall|j: int| 0 <= j < i ==> o[j] == n[j],
        decreases outer@.len() - i,
    {
        assert(o[i as int] == outer@[i as int]@ && n[i as int] == inner@[i as int]@);
        if !outer[i].eq(&inner[i]) {
            assert(n.take(o.len() as int)[i as int] != o[i as int]);
            return FieldVisibility::Restricted;
        }
        i = i + 1;
    }
    assert(n.take(o.len() as int) =~= o);
    FieldVisibility::Visible
}

/// How the visibility of a field relates to that of its declaration: the
/// field's path must be a prefix of the declaration's, the field at least as
/// broadly visible.
pub fn field_visibility(declaration: &Scope, field: &Scope) -> (r: FieldVisibility)
    ensures
        r == containment(scope_path(*field), scope_path(*declaration)),
{
    contains(&to_path(field), &to_path(declaration))
}

} // verus!
