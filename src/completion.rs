use vstd::prelude::*;
use crate::engine::{EngineReply, FileEntry, SymbolEntry};
use crate::json::{Json, JsonView, object1, object2};
use crate::text::{contains, has_substring, owned};

verus! {

/// The most candidates that one completion offers.
pub const MAX_COMPLETIONS: usize = 20;

/// A completion result: the candidates, with no further page.
pub open spec fn completion_view(values: Seq<Seq<char>>) -> JsonView {
    JsonView::Object(
        seq![
            (
                "completion"@,
                JsonView::Object(
                    seq![
                        ("values"@, JsonView::Array(values.map_values(|v: Seq<char>| JsonView::Str(v)))),
                        ("hasMore"@, JsonView::Bool(false)),
                    ],
                ),
            ),
        ],
    )
}

/// The texts of a list of strings.
pub open spec fn texts(v: Seq<String>) -> Seq<Seq<char>> {
    v.map_values(|s: String| s@)
}

/// A completion result offering `values`.
pub fn completion_result(values: &Vec<String>) -> (r: Json)
    ensures
        r@ == completion_view(texts(values@)),
{
    let r = object1("completion", object2("values", Json::string_array(values), "hasMore", Json::Bool(false)));
    assert(values@.map_values(|s: String| JsonView::Str(s@)) =~= texts(values@).map_values(
        |v: Seq<char>| JsonView::Str(v),
    ));
    r
}

/// The aspects that a code review can focus on.
pub open spec fn focus_options() -> Seq<Seq<char>> {
    seq!["security"@, "performance"@, "style"@, "bugs"@, "general"@]
}

/// The directions of a dependency analysis.
pub open spec fn direction_options() -> Seq<Seq<char>> {
    seq!["callers"@, "callees"@, "both"@]
}

/// The options that contain `value`, in their order.
pub open spec fn matching(options: Seq<Seq<char>>, value: Seq<char>) -> Seq<Seq<char>> {
    options.filter(|o: Seq<char>| has_substring(o, value))
}

/// At most the first twenty of `s`.
pub open spec fn capped(s: Seq<Seq<char>>) -> Seq<Seq<char>> {
    if s.len() <= MAX_COMPLETIONS {
        s
    } else {
        s.take(MAX_COMPLETIONS as int)
    }
}

/// The options that contain `value`.
pub fn matching_options(options: &Vec<String>, value: &str) -> (r: Vec<String>)
    ensures
        texts(r@) == matching(texts(options@), value@),
{
    let ghost all = texts(options@);
    let mut out: Vec<String> = Vec::new();
    let mut i: usize = 0;
    while i < options.len()
        invariant
            0 <= i <= options.len(),
            all == texts(options@),
            texts(out@) == matching(all.take(i as int), value@),
        decreases options.len() - i,
    {
        proof {
            reveal(Seq::filter);
            assert(all.take(i + 1).drop_last() =~= all.take(i as int));
            assert(all.take(i + 1).last() == all[i as int]);
        }
        let ghost before = out@;
        if contains(options[i].as_str(), value) {
            out.push(options[i].clone());
            assert(texts(out@) =~= texts(before).push(all[i as int]));
        }
        i = i + 1;
    }
    assert(all.take(options.len() as int) =~= all);
    out
}

/// The candidates for a fixed option list.
fn options_of(names: &[&str]) -> (r: Vec<String>)
    ensures
        r@.len() == names@.len(),
        forall|i: int| 0 <= i < names@.len() ==> #[trigger] r@[i]@ == names@[i]@,
{
    let mut out: Vec<String> = Vec::new();
    let mut i: usize = 0;
    while i < names.len()
        invariant
            0 <= i <= names@.len(),
            out@.len() == i,
            forall|k: int| 0 <= k < i ==> #[trigger] out@[k]@ == names@[k]@,
        decreases names.len() - i,
    {
        out.push(owned(names[i]));
        i = i + 1;
    }
    out
}

/// The review focuses that contain `value`.
pub fn complete_focus(value: &str) -> (r: Vec<String>)
    ensures
        texts(r@) == matching(focus_options(), value@),
{
    let options = options_of(&["security", "performance", "style", "bugs", "general"]);
    assert(texts(options@) =~= focus_options());
    matching_options(&options, value)
}

/// The analysis directions that contain `value`.
pub fn complete_direction(value: &str) -> (r: Vec<String>)
    ensures
        texts(r@) == matching(direction_options(), value@),
{
    let options = options_of(&["callers", "callees", "both"]);
    assert(texts(options@) =~= direction_options());
    matching_options(&options, value)
}

/// The paths of a list of files.
pub open spec fn paths(files: Seq<FileEntry>) -> Seq<Seq<char>> {
    files.map_values(|f: FileEntry| f.path@)
}

/// The first twenty paths of the tree that contain `value`.
pub fn complete_paths(files: &Vec<FileEntry>, value: &str) -> (r: Vec<String>)
    ensures
        texts(r@) == capped(matching(paths(files@), value@)),
{
    let ghost all = paths(files@);
    let mut out: Vec<String> = Vec::new();
    let mut i: usize = 0;
    while i < files.len()
        invariant
            0 <= i <= files.len(),
            all == paths(files@),
            texts(out@) == capped(matching(all.take(i as int), value@)),
            out@.len() <= MAX_COMPLETIONS,
            out@.len() == MAX_COMPLETIONS || out@.len() == matching(all.take(i as int), value@).len(),
        decreases files.len() - i,
    {
        let ghost before = matching(all.take(i as int), value@);
        proof {
            reveal(Seq::filter);
            assert(all.take(i + 1).drop_last() =~= all.take(i as int));
            assert(all.take(i + 1).last() == all[i as int]);
        }
        let ghost old_out = out@;
        if contains(files[i].path.as_str(), value) {
            if out.len() < MAX_COMPLETIONS {
                out.push(files[i].path.clone());
                assert(texts(out@) =~= texts(old_out).push(all[i as int]));
            } else {
                assert(capped(before.push(all[i as int])) =~= capped(before));
            }
        }
        i = i + 1;
    }
    assert(all.take(files.len() as int) =~= all);
    out
}

/// The names of the symbols that a symbol search found; none where it failed.
pub open spec fn found_names(reply: EngineReply) -> Seq<Seq<char>> {
    match reply {
        EngineReply::Symbols { entries, .. } => entries@.map_values(|s: SymbolEntry| s.name@),
        _ => Seq::empty(),
    }
}

/// The names of the symbols that a symbol search found, at most twenty.
pub fn complete_symbols(reply: &EngineReply) -> (r: Vec<String>)
    ensures
        texts(r@) == capped(found_names(*reply)),
{
    let mut out: Vec<String> = Vec::new();
    match reply {
        EngineReply::Symbols { entries, .. } => {
            let n = if entries.len() <= MAX_COMPLETIONS {
                entries.len()
            } else {
                MAX_COMPLETIONS
            };
            let mut i: usize = 0;
            while i < n
                invariant
                    0 <= i <= n <= entries.len(),
                    texts(out@) =~= entries@.take(i as int).map_values(|s: SymbolEntry| s.name@),
                decreases n - i,
            {
                let ghost before = out@;
                out.push(entries[i].name.clone());
                assert(texts(out@) =~= texts(before).push(entries@[i as int].name@));
                assert(entries@.take(i + 1) =~= entries@.take(i as int).push(entries@[i as int]));
                i = i + 1;
            }
            assert(entries@.take(entries.len() as int) =~= entries@);
            assert(capped(found_names(*reply)) =~= entries@.take(n as int).map_values(
                |s: SymbolEntry| s.name@,
            ));
        },
        _ => {
            assert(texts(out@) =~= Seq::<Seq<char>>::empty());
        },
    }
    out
}

} // verus!
