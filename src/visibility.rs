//! Visibility resolution for the companion record and the bypass operation.
//!
//! The companion record, the owning wrapper and the bypass operation are
//! defined in a helper module nested in the module of the declaration. A
//! visibility written there is widened by one module level, so that it
//! denotes the same scope as the original one did one level further out.
use vstd::prelude::*;

use crate::syntax::{is_word, words, Path, PathView, VisView, Visibility};

verus! {

/// `pub(super)`.
pub open spec fn pub_super() -> VisView {
    VisView::Restricted {
        in_token: false,
        path: PathView { leading_colon: false, segments: seq!["super"@] },
    }
}

/// A restriction path that does not depend on where it is written: one with a
/// leading `::`, one rooted at `crate`, one starting with a module name
/// (relative to the crate root, as the 2015 edition reads it), or an empty
/// one (which names nothing wherever it stands).
pub open spec fn is_rooted(path: PathView) -> bool {
    path.leading_colon || path.segments.len() == 0 || (path.segments[0] != "self"@
        && path.segments[0] != "super"@)
}

/// The visibility "one module level wider" than `v`.
pub open spec fn widened(v: VisView) -> VisView {
    match v {
        VisView::Public => VisView::Public,
        VisView::Inherited => pub_super(),
        VisView::Restricted { in_token, path } => {
            if is_rooted(path) {
                v
            } else if path.segments[0] == "self"@ {
                VisView::Restricted {
                    in_token,
                    path: PathView {
                        leading_colon: false,
                        segments: seq!["super"@] + path.segments.drop_first(),
                    },
                }
            } else {
                VisView::Restricted {
                    in_token: true,
                    path: PathView {
                        leading_colon: false,
                        segments: seq!["super"@] + path.segments,
                    },
                }
            }
        },
    }
}

/// The visibility of the bypass operation: never wider than the crate.
pub open spec fn capped_at_crate(v: VisView) -> VisView {
    match v {
        VisView::Public => VisView::Restricted {
            in_token: false,
            path: PathView { leading_colon: false, segments: seq!["crate"@] },
        },
        _ => v,
    }
}

/// The widened visibility, for the companion record and each of its fields.
pub fn super_of(pub_: &Visibility) -> (r: Visibility)
    ensures
        r@ == widened(pub_@),
{
    match pub_ {
        Visibility::Public => Visibility::Public,
        Visibility::Inherited => Visibility::Restricted {
            in_token: false,
            path: Path::ident(String::from_str("super")),
        },
        Visibility::Restricted { in_token, path } => {
            if path.leading_colon || path.segments.len() == 0 || (!is_word(&path.segments[0], "self")
                && !is_word(&path.segments[0], "super")) {
                pub_.copy()
            } else if is_word(&path.segments[0], "self") {
                assert(words(path.segments@).subrange(1, path.segments@.len() as int) =~= words(
                    path.segments@,
                ).drop_first());
                Visibility::Restricted {
                    in_token: *in_token,
                    path: Path {
                        leading_colon: false,
                        segments: super_then(&path.segments, 1),
                    },
                }
            } else {
                assert(words(path.segments@).subrange(0, path.segments@.len() as int) =~= words(
                    path.segments@,
                ));
                Visibility::Restricted {
                    in_token: true,
                    path: Path { leading_colon: false, segments: super_then(&path.segments, 0) },
                }
            }
        },
    }
}

/// `super` followed by the segments of `v` from position `from` on.
fn super_then(v: &Vec<String>, from: usize) -> (r: Vec<String>)
    requires
        from <= v.len(),
    ensures
        words(r@) == seq!["super"@] + words(v@).subrange(from as int, v@.len() as int),
{
    let mut r: Vec<String> = Vec::new();
    r.push(String::from_str("super"));
    let mut i: usize = from;
    while i < v.len()
        invariant
            from <= i <= v.len(),
            words(r@) == seq!["super"@] + words(v@).subrange(from as int, i as int),
        decreases v.len() - i,
    {
        let c = v[i].clone();
        let ghost before = r@;
        r.push(c);
        assert(words(r@) =~= words(before).push(c@));
        assert(words(v@).subrange(from as int, i as int + 1) =~= words(v@).subrange(from as int, i as int).push(c@));
        i += 1;
    }
    r
}

/// The visibility of the bypass operation: `pub` becomes `pub(crate)`, any
/// other visibility is kept.
pub fn pub_capped_at_crate(pub_: &Visibility) -> (r: Visibility)
    ensures
        r@ == capped_at_crate(pub_@),
{
    match pub_ {
        Visibility::Public => Visibility::Restricted {
            in_token: false,
            path: Path::ident(String::from_str("crate")),
        },
        _ => pub_.copy(),
    }
}

// What a visibility means: the module (a path from the crate root) within
// which an item is visible.

pub ghost enum Scope {
    Everywhere,
    Within(Seq<Seq<char>>),
}

/// Walks the segments of a restriction path from module `cur`: `super`
/// steps out; `self` and `crate` may only start a path.
pub open spec fn walk(cur: Seq<Seq<char>>, segs: Seq<Seq<char>>) -> Option<Seq<Seq<char>>>
    decreases segs.len(),
{
    if segs.len() == 0 {
        Some(cur)
    } else {
        let s = segs[0];
        if s == "super"@ {
            if cur.len() == 0 {
                None
            } else {
                walk(cur.drop_last(), segs.drop_first())
            }
        } else if s == "self"@ || s == "crate"@ {
            None
        } else {
            walk(cur.push(s), segs.drop_first())
        }
    }
}

/// The module that a restriction path written in module `here` names.
pub open spec fn resolve(here: Seq<Seq<char>>, path: PathView) -> Option<Seq<Seq<char>>> {
    if path.leading_colon {
        walk(Seq::empty(), path.segments)
    } else if path.segments.len() == 0 {
        None
    } else if path.segments[0] == "crate"@ {
        walk(Seq::empty(), path.segments.drop_first())
    } else if path.segments[0] == "self"@ {
        walk(here, path.segments.drop_first())
    } else if path.segments[0] == "super"@ {
        walk(here, path.segments)
    } else {
        walk(Seq::empty(), path.segments)
    }
}

/// The scope that visibility `v`, written in module `here`, grants.
pub open spec fn scope_of(v: VisView, here: Seq<Seq<char>>) -> Option<Scope> {
    match v {
        VisView::Public => Some(Scope::Everywhere),
        VisView::Inherited => Some(Scope::Within(here)),
        VisView::Restricted { path, .. } => match resolve(here, path) {
            Some(m) => Some(Scope::Within(m)),
            None => None,
        },
    }
}

proof fn lemma_path_words_distinct()
    ensures
        "self"@ != "super"@,
        "self"@ != "crate"@,
        "super"@ != "crate"@,
{
    reveal_strlit("super");
    reveal_strlit("self");
    reveal_strlit("crate");
    assert("self"@[1] != "super"@[1]);
    assert("self"@[0] != "crate"@[0]);
    assert("super"@[0] != "crate"@[0]);
}

/// A visibility written in module `m` and its widened form written in a
/// module `h` nested in `m` grant exactly the same scope, whatever the
/// visibility: the companion record and its fields, which stand in `h`, are
/// never less visible than the declaration and its fields, and never more.
/// (Read in `h`, the original visibility would grant at most one module
/// level less.)
pub proof fn lemma_widened_same_scope(v: VisView, m: Seq<Seq<char>>, h: Seq<char>)
    ensures
        scope_of(widened(v), m.push(h)) == scope_of(v, m),
{
    lemma_path_words_distinct();
    assert(m.push(h).drop_last() =~= m);
    match v {
        VisView::Restricted { in_token, path } => {
            if is_rooted(path) {
                assert(resolve(m.push(h), path) == resolve(m, path));
            } else if path.segments[0] == "self"@ {
                assert(resolve(m, path) == walk(m, path.segments.drop_first()));
                let segs = seq!["super"@] + path.segments.drop_first();
                assert(segs[0] == "super"@);
                assert(segs.drop_first() =~= path.segments.drop_first());
                assert(walk(m.push(h), segs) == walk(m, path.segments.drop_first()));
                let wp = PathView { leading_colon: false, segments: segs };
                assert(widened(v) == VisView::Restricted { in_token, path: wp });
                assert(resolve(m.push(h), wp) == walk(m.push(h), segs));
            } else {
                let segs = seq!["super"@] + path.segments;
                assert(segs[0] == "super"@);
                assert(segs.drop_first() =~= path.segments);
                assert(walk(m.push(h), segs) == walk(m, path.segments));
                assert(resolve(m, path) == walk(m, path.segments));
                let wp = PathView { leading_colon: false, segments: segs };
                assert(widened(v) == VisView::Restricted { in_token: true, path: wp });
                assert(resolve(m.push(h), wp) == walk(m.push(h), segs));
            }
        },
        VisView::Inherited => {
            let p = seq!["super"@];
            assert(p[0] == "super"@);
            assert(p.drop_first() =~= Seq::<Seq<char>>::empty());
            assert(walk(m.push(h), p) == walk(m, Seq::empty()));
        },
        VisView::Public => {},
    }
}

} // verus!
