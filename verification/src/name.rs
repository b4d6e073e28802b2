use vstd::prelude::*;

verus! {

/// A control character: general category Cc, that is U+0000 to U+001F and
/// U+007F to U+009F (what `char::is_control` tests).
pub open spec fn is_control(c: char) -> bool {
    c <= '\u{1f}' || ('\u{7f}' <= c && c <= '\u{9f}')
}

pub open spec fn has_control(text: Seq<char>) -> bool {
    exists|i: int| 0 <= i < text.len() && is_control(#[trigger] text[i])
}

/// A plain directory name: not empty, no separator, neither `.` nor `..`.
pub open spec fn is_normal_component(c: Seq<char>) -> bool {
    &&& c.len() > 0
    &&& forall|i: int| 0 <= i < c.len() ==> #[trigger] c[i] != '/'
    &&& c != seq!['.']
    &&& c != seq!['.', '.']
}

/// What a path reader skips after a component: nothing, or separators each
/// followed by at most one `.` (`/`, `//`, `/./` ...).
pub open spec fn is_ignorable_tail(t: Seq<char>) -> bool {
    t.len() == 0 || {
        &&& t[0] == '/'
        &&& forall|i: int| 0 <= i < t.len() ==> #[trigger] t[i] == '/' || t[i] == '.'
        &&& forall|i: int| 0 <= i < t.len() - 1 ==> !(#[trigger] t[i] == '.' && t[i + 1] == '.')
    }
}

/// As a relative path, `name` consists of the one plain directory name `c`
/// and nothing else: `c` followed by an ignorable tail.
pub open spec fn names_single_component(name: Seq<char>, c: Seq<char>) -> bool {
    &&& is_normal_component(c)
    &&& c.len() <= name.len()
    &&& name.subrange(0, c.len() as int) == c
    &&& is_ignorable_tail(name.subrange(c.len() as int, name.len() as int))
}

/// `name` can name a gist directory: it is a single plain directory name.
pub open spec fn is_single_component(name: Seq<char>) -> bool {
    exists|c: Seq<char>| names_single_component(name, c)
}

/// A name has at most one component: the one component of a name is the
/// text before its first separator.
pub proof fn lemma_component_unique(name: Seq<char>, c1: Seq<char>, c2: Seq<char>)
    requires
        names_single_component(name, c1),
        names_single_component(name, c2),
    ensures
        c1 == c2,
{
    if c1.len() < c2.len() {
        let t = name.subrange(c1.len() as int, name.len() as int);
        assert(t[0] == name[c1.len() as int]);
        assert(name.subrange(0, c2.len() as int)[c1.len() as int] == name[c1.len() as int]);
        assert(false);
    } else if c2.len() < c1.len() {
        let t = name.subrange(c2.len() as int, name.len() as int);
        assert(t[0] == name[c2.len() as int]);
        assert(name.subrange(0, c1.len() as int)[c2.len() as int] == name[c2.len() as int]);
        assert(false);
    }
    assert(c1 =~= c2);
}

/// The component of a name, if any, is the text before the first separator.
proof fn lemma_component_is_first_segment(name: Seq<char>, c: Seq<char>, k: int)
    requires
        names_single_component(name, c),
        0 <= k <= name.len(),
        forall|j: int| 0 <= j < k ==> name[j] != '/',
        k < name.len() ==> name[k] == '/',
    ensures
        c.len() == k,
        c == name.subrange(0, k),
{
    if c.len() < k {
        let t = name.subrange(c.len() as int, name.len() as int);
        assert(t[0] == name[c.len() as int]);
        assert(false);
    } else if c.len() > k {
        assert(name.subrange(0, c.len() as int)[k] == name[k]);
        assert(false);
    }
}

fn char_is_control(c: char) -> (b: bool)
    ensures
        b == is_control(c),
{
    c <= '\u{1f}' || ('\u{7f}' <= c && c <= '\u{9f}')
}

/// Whether the text holds a control character.
pub fn contains_control(text: &str) -> (b: bool)
    ensures
        b == has_control(text@),
{
    let n = text.unicode_len();
    let mut i: usize = 0;
    while i < n
        invariant
            n == text@.len(),
            i <= n,
            forall|j: int| 0 <= j < i ==> !is_control(#[trigger] text@[j]),
        decreases n - i,
    {
        if char_is_control(text.get_char(i)) {
            return true;
        }
        i += 1;
    }
    false
}

/// The index of the first separator, or the length if there is none.
fn first_separator(text: &str) -> (k: usize)
    ensures
        k <= text@.len(),
        forall|j: int| 0 <= j < k ==> #[trigger] text@[j] != '/',
        k < text@.len() ==> text@[k as int] == '/',
{
    let n = text.unicode_len();
    let mut k: usize = 0;
    while k < n
        invariant
            n == text@.len(),
            k <= n,
            forall|j: int| 0 <= j < k ==> #[trigger] text@[j] != '/',
        decreases n - k,
    {
        if text.get_char(k) == '/' {
            return k;
        }
        k += 1;
    }
    k
}

/// Whether the text from index `k` on is an ignorable tail.
fn tail_is_ignorable(text: &str, k: usize) -> (b: bool)
    requires
        k <= text@.len(),
        k < text@.len() ==> text@[k as int] == '/',
    ensures
        b == is_ignorable_tail(text@.subrange(k as int, text@.len() as int)),
{
    let n = text.unicode_len();
    let ghost t = text@.subrange(k as int, n as int);
    let mut i: usize = k;
    while i < n
        invariant
            n == text@.len(),
            k <= i <= n,
            t == text@.subrange(k as int, n as int),
            forall|j: int| k <= j < i ==> #[trigger] text@[j] == '/' || text@[j] == '.',
            forall|j: int| k <= j < i - 1 ==> !(#[trigger] text@[j] == '.' && text@[j + 1] == '.'),
        decreases n - i,
    {
        let c = text.get_char(i);
        if c != '/' && c != '.' {
            assert(t[i - k] == c);
            return false;
        }
        if c == '.' && i > k && text.get_char(i - 1) == '.' {
            assert(t[i - 1 - k] == '.' && t[i - k] == '.');
            return false;
        }
        i += 1;
    }
    assert(forall|j: int| 0 <= j < t.len() ==> #[trigger] t[j] == text@[j + k]);
    true
}

/// The one plain directory name that `name` consists of, or `None` where it
/// is not a single plain directory name (`""`, `"."`, `".."`, `"a/b"`,
/// `"/a"` ...).
pub fn single_component(name: &str) -> (r: Option<String>)
    ensures
        match r {
            Some(c) => names_single_component(name@, c@),
            None => !is_single_component(name@),
        },
{
    let n = name.unicode_len();
    let k = first_separator(name);
    let ghost c = name@.subrange(0, k as int);
    let plain = if k == 0 {
        false
    } else if k == 1 {
        name.get_char(0) != '.'
    } else if k == 2 {
        !(name.get_char(0) == '.' && name.get_char(1) == '.')
    } else {
        true
    };
    proof {
        if k == 1 && !plain {
            assert(c =~= seq!['.']);
        }
        if k == 1 && plain {
            assert(c[0] != seq!['.'][0]);
        }
        if k == 2 && !plain {
            assert(c =~= seq!['.', '.']);
        }
        if k == 2 && plain {
            assert(c[0] != seq!['.', '.'][0] || c[1] != seq!['.', '.'][1]);
        }
        if k > 2 {
            assert(c.len() != seq!['.'].len() && c.len() != seq!['.', '.'].len());
        }
        assert(plain == is_normal_component(c));
    }
    let tail_ok = tail_is_ignorable(name, k);
    if plain && tail_ok {
        let component = name.substring_char(0, k).to_owned();
        Some(component)
    } else {
        proof {
            assert forall|d: Seq<char>| !names_single_component(name@, d) by {
                if names_single_component(name@, d) {
                    lemma_component_is_first_segment(name@, d, k as int);
                }
            }
        }
        None
    }
}

/// The control characters are exactly U+0000 to U+001F and U+007F to
/// U+009F: printable ASCII (letters, digits, punctuation, space) and every
/// character above U+009F are not control characters.
pub proof fn lemma_control_characters(c: char)
    ensures
        (c <= '\u{1f}' || ('\u{7f}' <= c && c <= '\u{9f}')) ==> is_control(c),
        (('\u{20}' <= c && c < '\u{7f}') || '\u{9f}' < c) ==> !is_control(c),
{
}

/// A text made only of printable ASCII and characters above U+009F holds no
/// control character.
pub proof fn lemma_printable_text_has_no_control(text: Seq<char>)
    requires
        forall|i: int|
            0 <= i < text.len() ==> ('\u{20}' <= #[trigger] text[i] && text[i] < '\u{7f}') || '\u{9f}'
                < text[i],
    ensures
        !has_control(text),
{
}

/// Every non-empty text without a separator, other than `.` and `..`, is a
/// single plain directory name, and that name is the text itself.
pub proof fn lemma_plain_name_names_itself(name: Seq<char>)
    requires
        name.len() > 0,
        forall|i: int| 0 <= i < name.len() ==> name[i] != '/',
        name != seq!['.'],
        name != seq!['.', '.'],
    ensures
        names_single_component(name, name),
        is_single_component(name),
{
    assert(name.subrange(0, name.len() as int) =~= name);
    assert(name.subrange(name.len() as int, name.len() as int) =~= Seq::<char>::empty());
}

} // verus!
