use vstd::prelude::*;
use vstd::relations::{sorted_by, total_ordering};

use crate::error::GistError;
use crate::timestamp::Timestamp;

verus! {

broadcast use vstd::seq_lib::group_to_multiset_ensures;

/// A gist as listed: its directory name, when it was created and whether it
/// is archived.
#[derive(Debug)]
pub struct Gist {
    pub name: String,
    pub created_at: Timestamp,
    pub archived: bool,
}

pub struct GistModel {
    pub name: Seq<char>,
    pub created_at: Timestamp,
    pub archived: bool,
}

impl View for Gist {
    type V = GistModel;

    open spec fn view(&self) -> GistModel {
        GistModel { name: self.name@, created_at: self.created_at, archived: self.archived }
    }
}

pub open spec fn gist_models(gists: Seq<Gist>) -> Seq<GistModel> {
    gists.map_values(|g: Gist| g@)
}

/// Text order: character by character, a proper prefix first (the order of
/// `str`, since UTF-8 keeps the order of code points).
pub open spec fn text_le(a: Seq<char>, b: Seq<char>) -> bool
    decreases a.len(),
{
    if a.len() == 0 {
        true
    } else if b.len() == 0 {
        false
    } else if a[0] != b[0] {
        a[0] < b[0]
    } else {
        text_le(a.drop_first(), b.drop_first())
    }
}

/// Listing order: gists that are not archived first, then the most recently
/// created first, then by name.
pub open spec fn gist_le(a: GistModel, b: GistModel) -> bool {
    if a.archived != b.archived {
        !a.archived
    } else if a.created_at != b.created_at {
        b.created_at.no_later_than(a.created_at)
    } else {
        text_le(a.name, b.name)
    }
}

pub open spec fn gist_order() -> spec_fn(GistModel, GistModel) -> bool {
    |a: GistModel, b: GistModel| gist_le(a, b)
}

proof fn lemma_text_le_reflexive(a: Seq<char>)
    ensures
        text_le(a, a),
    decreases a.len(),
{
    if a.len() > 0 {
        lemma_text_le_reflexive(a.drop_first());
    }
}

proof fn lemma_text_le_total(a: Seq<char>, b: Seq<char>)
    ensures
        text_le(a, b) || text_le(b, a),
    decreases a.len(),
{
    if a.len() > 0 && b.len() > 0 && a[0] == b[0] {
        lemma_text_le_total(a.drop_first(), b.drop_first());
    }
}

proof fn lemma_text_le_antisymmetric(a: Seq<char>, b: Seq<char>)
    requires
        text_le(a, b),
        text_le(b, a),
    ensures
        a == b,
    decreases a.len(),
{
    if a.len() == 0 {
        assert(b.len() == 0);
        assert(a =~= b);
    } else {
        lemma_text_le_antisymmetric(a.drop_first(), b.drop_first());
        assert(a =~= seq![a[0]] + a.drop_first());
        assert(b =~= seq![b[0]] + b.drop_first());
    }
}

proof fn lemma_text_le_transitive(a: Seq<char>, b: Seq<char>, c: Seq<char>)
    requires
        text_le(a, b),
        text_le(b, c),
    ensures
        text_le(a, c),
    decreases a.len(),
{
    if a.len() > 0 && b.len() > 0 && c.len() > 0 && a[0] == b[0] && b[0] == c[0] {
        lemma_text_le_transitive(a.drop_first(), b.drop_first(), c.drop_first());
    }
}

/// The listing order is a total order on gists: reflexive, antisymmetric,
/// transitive, and any two gists are ordered one way or the other.
pub proof fn lemma_gist_order_total()
    ensures
        total_ordering(gist_order()),
{
    let r = gist_order();
    assert forall|x: GistModel| #[trigger] r(x, x) by {
        lemma_text_le_reflexive(x.name);
    }
    assert forall|x: GistModel, y: GistModel| #[trigger] r(x, y) && #[trigger] r(y, x) implies x
        == y by {
        if x.archived == y.archived && x.created_at == y.created_at {
            lemma_text_le_antisymmetric(x.name, y.name);
        }
    }
    assert forall|x: GistModel, y: GistModel, z: GistModel|
        #[trigger] r(x, y) && #[trigger] r(y, z) implies r(x, z) by {
        if x.archived == y.archived && y.archived == z.archived && x.created_at == y.created_at
            && y.created_at == z.created_at {
            lemma_text_le_transitive(x.name, y.name, z.name);
        }
    }
    assert forall|x: GistModel, y: GistModel| #[trigger] r(x, y) || #[trigger] r(y, x) by {
        lemma_text_le_total(x.name, y.name);
    }
}

/// Whether `a` comes no later than `b` in text order.
fn text_is_le(a: &str, b: &str) -> (r: bool)
    ensures
        r == text_le(a@, b@),
{
    let la = a.unicode_len();
    let lb = b.unicode_len();
    let mut i: usize = 0;
    assert(a@.skip(0) =~= a@);
    assert(b@.skip(0) =~= b@);
    while i < la && i < lb
        invariant
            la == a@.len(),
            lb == b@.len(),
            i <= la,
            i <= lb,
            text_le(a@, b@) == text_le(a@.skip(i as int), b@.skip(i as int)),
        decreases la - i,
    {
        let ca = a.get_char(i);
        let cb = b.get_char(i);
        if ca != cb {
            assert(a@.skip(i as int)[0] == ca);
            assert(b@.skip(i as int)[0] == cb);
            return ca < cb;
        }
        assert(a@.skip(i as int).drop_first() =~= a@.skip(i + 1));
        assert(b@.skip(i as int).drop_first() =~= b@.skip(i + 1));
        i += 1;
    }
    i == la
}

/// Whether `a` comes no later than `b` in the listing.
fn gist_is_le(a: &Gist, b: &Gist) -> (r: bool)
    ensures
        r == gist_le(a@, b@),
{
    if a.archived != b.archived {
        !a.archived
    } else if a.created_at.secs != b.created_at.secs || a.created_at.nanos != b.created_at.nanos {
        b.created_at.is_no_later_than(&a.created_at)
    } else {
        text_is_le(a.name.as_str(), b.name.as_str())
    }
}

/// The gists in listing order: the same gists, each as often as given,
/// ordered by `gist_le`.
pub fn sort_gists(gists: Vec<Gist>) -> (sorted: Vec<Gist>)
    ensures
        gist_models(sorted@).to_multiset() == gist_models(gists@).to_multiset(),
        sorted_by(gist_models(sorted@), gist_order()),
        gist_models(sorted@) == gist_models(gists@).sort_by(gist_order()),
{
    let sorted = insertion_sort(gists);
    proof {
        lemma_gist_order_total();
        gist_models(gists@).lemma_sort_by_ensures(gist_order());
        vstd::seq_lib::lemma_sorted_unique(
            gist_models(sorted@),
            gist_models(gists@).sort_by(gist_order()),
            gist_order(),
        );
    }
    sorted
}

/// The listing order determines the listing: two orderings of the same
/// gists that both follow the listing order are the same sequence.
pub proof fn lemma_listing_unique(x: Seq<GistModel>, y: Seq<GistModel>)
    requires
        x.to_multiset() == y.to_multiset(),
        sorted_by(x, gist_order()),
        sorted_by(y, gist_order()),
    ensures
        x == y,
{
    lemma_gist_order_total();
    vstd::seq_lib::lemma_sorted_unique(x, y, gist_order());
}

fn insertion_sort(gists: Vec<Gist>) -> (sorted: Vec<Gist>)
    ensures
        gist_models(sorted@).to_multiset() == gist_models(gists@).to_multiset(),
        sorted_by(gist_models(sorted@), gist_order()),
{
    broadcast use vstd::multiset::group_multiset_axioms;

    proof {
        lemma_gist_order_total();
    }
    let ghost whole = gist_models(gists@).to_multiset();
    let mut rest = gists;
    let mut sorted: Vec<Gist> = Vec::new();
    assert(gist_models(sorted@) =~= Seq::<GistModel>::empty());
    assert(gist_models(sorted@).to_multiset() =~= vstd::multiset::Multiset::empty());
    while rest.len() > 0
        invariant
            total_ordering(gist_order()),
            gist_models(sorted@).to_multiset().add(gist_models(rest@).to_multiset()) == whole,
            sorted_by(gist_models(sorted@), gist_order()),
        decreases rest.len(),
    {
        let ghost rest_before = rest@;
        let g = match rest.pop() {
            Some(g) => g,
            None => {
                return sorted;
            },
        };
        proof {
            assert(gist_models(rest_before) =~= gist_models(rest@).push(g@));
        }
        let n = sorted.len();
        let mut j: usize = 0;
        while j < n
            invariant
                n == sorted@.len(),
                j <= n,
                total_ordering(gist_order()),
                sorted_by(gist_models(sorted@), gist_order()),
                forall|k: int| 0 <= k < j ==> gist_le(#[trigger] sorted@[k]@, g@),
            ensures
                j <= n,
                forall|k: int| 0 <= k < j ==> gist_le(#[trigger] sorted@[k]@, g@),
                j < n ==> !gist_le(sorted@[j as int]@, g@),
            decreases n - j,
        {
            if !gist_is_le(&sorted[j], &g) {
                break;
            }
            j += 1;
        }
        let ghost before = gist_models(sorted@);
        proof {
            assert(j < n ==> gist_le(g@, sorted@[j as int]@)) by {
                if j < n {
                    assert(gist_order()(sorted@[j as int]@, g@) || gist_order()(g@, sorted@[j as int]@));
                }
            }
        }
        sorted.insert(j, g);
        proof {
            let after = gist_models(sorted@);
            assert(after =~= before.insert(j as int, g@));
            vstd::seq_lib::to_multiset_insert(before, j as int, g@);
            assert forall|a: int, b: int| 0 <= a < b < after.len() implies #[trigger] gist_order()(
                after[a],
                after[b],
            ) by {
                if b < j {
                    assert(gist_order()(before[a], before[b]));
                } else if a < j && b == j {
                    assert(gist_le(sorted@[a]@, g@));
                } else if a < j && b > j {
                    assert(gist_order()(before[a], g@));
                    assert(gist_order()(g@, before[j as int]));
                    assert(gist_order()(before[j as int], before[b - 1]) || j == b - 1);
                    assert(gist_order()(g@, before[b - 1]));
                    assert(gist_order()(before[a], before[b - 1]));
                } else if a == j {
                    assert(gist_order()(g@, before[j as int]));
                    assert(gist_order()(before[j as int], before[b - 1]) || j == b - 1);
                } else {
                    assert(gist_order()(before[a - 1], before[b - 1]));
                }
            }
            assert(gist_models(rest_before).to_multiset() =~= gist_models(rest@).to_multiset().insert(
                g@,
            ));
        }
    }
    assert(gist_models(rest@).to_multiset() =~= vstd::multiset::Multiset::empty()) by {
        assert(gist_models(rest@) =~= Seq::<GistModel>::empty());
    }
    sorted
}

/// The line that lists a gist: the creation time as the caller shows it,
/// the name, a mark for an archived gist, and a newline.
pub open spec fn gist_line_text(time_text: Seq<char>, g: GistModel) -> Seq<char> {
    time_text + " | "@ + g.name + (if g.archived {
        " (archived)"@
    } else {
        Seq::<char>::empty()
    }) + "\n"@
}

/// The line that lists `gist`, given its creation time as shown to the user.
pub fn gist_line(time_text: &str, gist: &Gist) -> (line: String)
    ensures
        line@ == gist_line_text(time_text@, gist@),
{
    let mut line = time_text.to_owned();
    line.append(" | ");
    line.append(gist.name.as_str());
    if gist.archived {
        line.append(" (archived)");
    } else {
        assert(line@ + Seq::<char>::empty() =~= line@);
    }
    line.append("\n");
    line
}

/// What reading one entry of the gist root gave: a gist, nothing (not a
/// gist), or an error.
pub open spec fn entry_model(e: Result<Option<Gist>, GistError>) -> Result<
    Option<GistModel>,
    crate::error::GistErrorModel,
> {
    match e {
        Ok(Some(g)) => Ok(Some(g@)),
        Ok(None) => Ok(None),
        Err(err) => Err(err@),
    }
}

pub open spec fn entry_models(entries: Seq<Result<Option<Gist>, GistError>>) -> Seq<
    Result<Option<GistModel>, crate::error::GistErrorModel>,
> {
    entries.map_values(|e: Result<Option<Gist>, GistError>| entry_model(e))
}

/// The gists among the entries, in entry order.
pub open spec fn found_gists(
    entries: Seq<Result<Option<GistModel>, crate::error::GistErrorModel>>,
) -> Seq<GistModel>
    decreases entries.len(),
{
    if entries.len() == 0 {
        Seq::empty()
    } else {
        let rest = found_gists(entries.drop_first());
        match entries[0] {
            Ok(Some(g)) => seq![g] + rest,
            _ => rest,
        }
    }
}

/// The errors among the entries, in entry order.
pub open spec fn found_errors(
    entries: Seq<Result<Option<GistModel>, crate::error::GistErrorModel>>,
) -> Seq<crate::error::GistErrorModel>
    decreases entries.len(),
{
    if entries.len() == 0 {
        Seq::empty()
    } else {
        let rest = found_errors(entries.drop_first());
        match entries[0] {
            Err(e) => seq![e] + rest,
            _ => rest,
        }
    }
}

/// The outcome of listing the gist root.
pub struct Listing {
    /// The gists found, in listing order.
    pub gists: Vec<Gist>,
    /// The entries that could not be read, in the order met.
    pub errors: Vec<GistError>,
}

pub open spec fn error_models(errors: Seq<GistError>) -> Seq<crate::error::GistErrorModel> {
    errors.map_values(|e: GistError| e@)
}

/// Lists the gist root from what reading each of its entries gave: the
/// gists found, in listing order, and the errors met, in entry order. An
/// entry that failed does not stop the listing.
pub fn list(entries: Vec<Result<Option<Gist>, GistError>>) -> (listing: Listing)
    ensures
        gist_models(listing.gists@) == found_gists(entry_models(entries@)).sort_by(gist_order()),
        error_models(listing.errors@) == found_errors(entry_models(entries@)),
{
    let ghost all = entry_models(entries@);
    let mut rest = entries;
    let mut gists: Vec<Gist> = Vec::new();
    let mut errors: Vec<GistError> = Vec::new();
    let ghost mut done: int = 0;
    assert(entry_models(rest@) =~= all.subrange(0, all.len() as int));
    assert(gist_models(gists@) =~= Seq::<GistModel>::empty());
    assert(error_models(errors@) =~= Seq::<crate::error::GistErrorModel>::empty());
    while rest.len() > 0
        invariant
            0 <= done <= all.len(),
            entry_models(rest@) == all.subrange(done, all.len() as int),
            gist_models(gists@) + found_gists(entry_models(rest@)) == found_gists(all),
            error_models(errors@) + found_errors(entry_models(rest@)) == found_errors(all),
        decreases rest.len(),
    {
        let ghost before = entry_models(rest@);
        let entry = rest.remove(0);
        proof {
            assert(entry_models(rest@) =~= before.drop_first());
            assert(before[0] == entry_model(entry));
            done = done + 1;
            assert(entry_models(rest@) =~= all.subrange(done, all.len() as int));
        }
        let ghost gists_before = gist_models(gists@);
        let ghost errors_before = error_models(errors@);
        match entry {
            Ok(Some(g)) => {
                let ghost gm = g@;
                gists.push(g);
                proof {
                    assert(gist_models(gists@) =~= gists_before.push(gm));
                    assert(gists_before.push(gm) + found_gists(entry_models(rest@)) =~= gists_before
                        + (seq![gm] + found_gists(entry_models(rest@))));
                }
            },
            Ok(None) => {},
            Err(e) => {
                let ghost em = e@;
                errors.push(e);
                proof {
                    assert(error_models(errors@) =~= errors_before.push(em));
                    assert(errors_before.push(em) + found_errors(entry_models(rest@)) =~= errors_before
                        + (seq![em] + found_errors(entry_models(rest@))));
                }
            },
        }
    }
    let sorted = sort_gists(gists);
    Listing { gists: sorted, errors }
}

/// Each gist is found among the entries as often as the entries hold it.
proof fn lemma_found_gists_count(
    entries: Seq<Result<Option<GistModel>, crate::error::GistErrorModel>>,
    g: GistModel,
)
    ensures
        found_gists(entries).to_multiset().count(g) == entries.to_multiset().count(Ok(Some(g))),
    decreases entries.len(),
{
    broadcast use vstd::multiset::group_multiset_axioms;

    if entries.len() == 0 {
        assert(found_gists(entries) =~= Seq::<GistModel>::empty());
        assert(entries.to_multiset().len() == 0);
        assert(found_gists(entries).to_multiset().len() == 0);
    } else {
        let rest = entries.drop_first();
        lemma_found_gists_count(rest, g);
        assert(entries.remove(0) =~= rest);
        assert(entries.contains(entries[0]));
        match entries[0] {
            Ok(Some(h)) => {
                assert(seq![h] + found_gists(rest) =~= found_gists(rest).insert(0, h));
            },
            _ => {},
        }
    }
}

/// The listing does not depend on the order in which the entries of the
/// gist root are read: entries that hold the same items, each as often, in
/// any order, give the same gists in the same listing order.
pub proof fn lemma_listing_ignores_entry_order(
    first: Seq<Result<Option<GistModel>, crate::error::GistErrorModel>>,
    second: Seq<Result<Option<GistModel>, crate::error::GistErrorModel>>,
)
    requires
        first.to_multiset() == second.to_multiset(),
    ensures
        found_gists(first).sort_by(gist_order()) == found_gists(second).sort_by(gist_order()),
{
    assert forall|g: GistModel| #[trigger] found_gists(first).to_multiset().count(g) == found_gists(
        second,
    ).to_multiset().count(g) by {
        lemma_found_gists_count(first, g);
        lemma_found_gists_count(second, g);
    }
    assert(found_gists(first).to_multiset() =~= found_gists(second).to_multiset());
    lemma_gist_order_total();
    found_gists(first).lemma_sort_by_ensures(gist_order());
    found_gists(second).lemma_sort_by_ensures(gist_order());
    vstd::seq_lib::lemma_sorted_unique(
        found_gists(first).sort_by(gist_order()),
        found_gists(second).sort_by(gist_order()),
        gist_order(),
    );
}

/// Names are ordered by their first differing character: where `a` and `b`
/// agree before index `i` and differ at `i`, `a` comes first exactly when its
/// character there is the smaller.
pub proof fn lemma_text_order_first_difference(a: Seq<char>, b: Seq<char>, i: int)
    requires
        0 <= i < a.len(),
        i < b.len(),
        forall|j: int| 0 <= j < i ==> a[j] == b[j],
        a[i] != b[i],
    ensures
        text_le(a, b) == (a[i] < b[i]),
    decreases i,
{
    if i > 0 {
        assert(a[0] == b[0]);
        lemma_text_order_first_difference(a.drop_first(), b.drop_first(), i - 1);
    }
}

/// A name comes no later than every name it is a prefix of, and a proper
/// prefix comes strictly first.
pub proof fn lemma_text_order_prefix(a: Seq<char>, b: Seq<char>)
    requires
        a.len() <= b.len(),
        forall|j: int| 0 <= j < a.len() ==> a[j] == b[j],
    ensures
        text_le(a, b),
        a.len() < b.len() ==> !text_le(b, a),
    decreases a.len(),
{
    if a.len() > 0 {
        assert(a[0] == b[0]);
        lemma_text_order_prefix(a.drop_first(), b.drop_first());
    }
}

/// Gists that are not archived are listed before archived ones.
pub proof fn lemma_listing_active_first(a: GistModel, b: GistModel)
    requires
        !a.archived,
        b.archived,
    ensures
        gist_le(a, b),
        !gist_le(b, a),
{
}

/// Among gists alike in being archived or not, the one created strictly
/// later (more seconds, or as many seconds and more nanoseconds) is listed
/// strictly first.
pub proof fn lemma_listing_newest_first(a: GistModel, b: GistModel)
    requires
        a.archived == b.archived,
        a.created_at.secs > b.created_at.secs || (a.created_at.secs == b.created_at.secs
            && a.created_at.nanos > b.created_at.nanos),
    ensures
        gist_le(a, b),
        !gist_le(b, a),
{
}

/// Gists alike in being archived and in creation time are listed by name:
/// by the first character in which the names differ, and a name before the
/// longer names it begins.
pub proof fn lemma_listing_by_name(a: GistModel, b: GistModel, i: int)
    requires
        a.archived == b.archived,
        a.created_at == b.created_at,
        0 <= i <= a.name.len(),
        i <= b.name.len(),
        forall|j: int| 0 <= j < i ==> a.name[j] == b.name[j],
        i < a.name.len() && i < b.name.len() ==> a.name[i] != b.name[i],
    ensures
        i < a.name.len() && i < b.name.len() ==> (gist_le(a, b) <==> a.name[i] < b.name[i]),
        i == a.name.len() ==> gist_le(a, b),
        i == a.name.len() && i < b.name.len() ==> !gist_le(b, a),
{
    if i < a.name.len() && i < b.name.len() {
        lemma_text_order_first_difference(a.name, b.name, i);
    }
    if i == a.name.len() {
        lemma_text_order_prefix(a.name, b.name);
    }
}

/// In a listing, no archived gist comes before a gist that is not archived,
/// and among gists alike in that, no gist comes before one created strictly
/// later.
pub proof fn lemma_listing_shape(listing: Seq<GistModel>)
    requires
        sorted_by(listing, gist_order()),
    ensures
        forall|i: int, j: int|
            0 <= i < j < listing.len() ==> {
                &&& (#[trigger] listing[i]).archived ==> (#[trigger] listing[j]).archived
                &&& listing[i].archived == listing[j].archived ==> (listing[j].created_at.secs
                    < listing[i].created_at.secs || (listing[j].created_at.secs
                    == listing[i].created_at.secs && listing[j].created_at.nanos
                    <= listing[i].created_at.nanos))
            },
{
    assert forall|i: int, j: int| 0 <= i < j < listing.len() implies {
        &&& (#[trigger] listing[i]).archived ==> (#[trigger] listing[j]).archived
        &&& listing[i].archived == listing[j].archived ==> (listing[j].created_at.secs
            < listing[i].created_at.secs || (listing[j].created_at.secs
            == listing[i].created_at.secs && listing[j].created_at.nanos
            <= listing[i].created_at.nanos))
    } by {
        assert(gist_order()(listing[i], listing[j]));
    }
}

/// A listing line holds, in order, the time text, `" | "`, the whole gist
/// name, `" (archived)"` for an archived gist, and a newline; nothing is cut.
pub proof fn lemma_gist_line_holds_name(time_text: Seq<char>, g: GistModel)
    ensures
        ({
            let line = gist_line_text(time_text, g);
            let t = time_text.len() as int;
            let n = g.name.len() as int;
            &&& line.len() == t + 3 + n + (if g.archived { 11int } else { 0int }) + 1
            &&& line.subrange(0, t) == time_text
            &&& line[t] == ' ' && line[t + 1] == '|' && line[t + 2] == ' '
            &&& line.subrange(t + 3, t + 3 + n) == g.name
            &&& g.archived ==> line.subrange(t + 3 + n, t + 3 + n + 11) == seq![
                ' ',
                '(',
                'a',
                'r',
                'c',
                'h',
                'i',
                'v',
                'e',
                'd',
                ')',
            ]
            &&& line[line.len() - 1] == '\n'
        }),
{
    reveal_strlit(" | ");
    reveal_strlit(" (archived)");
    reveal_strlit("\n");
    let line = gist_line_text(time_text, g);
    let t = time_text.len() as int;
    let n = g.name.len() as int;
    assert(line.subrange(0, t) =~= time_text);
    assert(line.subrange(t + 3, t + 3 + n) =~= g.name);
    if g.archived {
        assert(line.subrange(t + 3 + n, t + 3 + n + 11) =~= " (archived)"@);
    }
}

} // verus!
