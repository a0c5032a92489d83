//! Sponsor logos: their rotation on the overlay, the tags that show them,
//! the management list, and the files that hold them.
use vstd::prelude::*;
use crate::text::{dot_segments, dot_segment, str_equal};
use crate::trusted::{base64_standard, base64_encode};

verus! {

/// The image type of a data URL for a file extension: `png`, or `jpeg` for
/// `jpg` and `jpeg`; empty for anything else.
pub open spec fn image_mime(ext: Seq<char>) -> Seq<char> {
    if ext == "png"@ {
        "png"@
    } else if ext == "jpg"@ || ext == "jpeg"@ {
        "jpeg"@
    } else {
        Seq::empty()
    }
}

/// The image type for a file extension (see [`image_mime`]).
pub fn image_mime_type(ext: &str) -> (r: &'static str)
    ensures
        r@ == image_mime(ext@),
{
    if str_equal(ext, "png") {
        "png"
    } else if str_equal(ext, "jpg") || str_equal(ext, "jpeg") {
        "jpeg"
    } else {
        proof {
            reveal_strlit("");
        }
        ""
    }
}

/// Whether a file name has an extension piece after its first dot, as the
/// image handling requires.
pub open spec fn has_extension(name: Seq<char>) -> bool {
    dot_segments(name).len() >= 2
}

/// The piece of a file name after its first dot (up to the next dot).
pub open spec fn extension(name: Seq<char>) -> Seq<char> {
    dot_segments(name)[1]
}

/// The piece of a file name before its first dot.
pub open spec fn stem(name: Seq<char>) -> Seq<char> {
    dot_segments(name)[0]
}

/// The index of the next sponsor to show: the one after the current, back
/// to the first after the last; unchanged while sponsors are hidden or
/// there are none.
pub open spec fn next_sponsor(idx: usize, show_sponsors: bool, len: usize) -> usize {
    if show_sponsors && len > 0 {
        if idx < len - 1 {
            (idx + 1) as usize
        } else {
            0
        }
    } else {
        idx
    }
}

/// One step of the sponsor roll.
pub fn sponsor_ticker(idx: &mut usize, show_sponsors: bool, len: usize)
    ensures
        *final(idx) == next_sponsor(*old(idx), show_sponsors, len),
{
    if show_sponsors && len > 0 {
        if *idx < len - 1 {
            *idx = *idx + 1;
        } else {
            *idx = 0;
        }
    }
}

/// Once the sponsors are shown, the roll always points at one of them.
pub proof fn lemma_sponsor_index_in_range(idx: usize, len: usize)
    requires
        len > 0,
    ensures
        next_sponsor(idx, true, len) < len,
{
}

/// Over `len` steps the roll shows every sponsor once and comes back to
/// where it started.
pub proof fn lemma_sponsor_roll_cycles(idx: usize, len: usize, k: nat)
    requires
        idx < len,
        k <= len,
    ensures
        roll(idx, len, k) == (idx + k) % (len as int),
    decreases k,
{
    if k > 0 {
        lemma_sponsor_roll_cycles(idx, len, (k - 1) as nat);
        let x = idx + k - 1;
        let p = roll(idx, len, (k - 1) as nat);
        assert(p == x % (len as int));
        lemma_mod_step(x, len as int);
    } else {
        vstd::arithmetic::div_mod::lemma_small_mod(idx as nat, len as nat);
    }
}

proof fn lemma_mod_step(x: int, m: int)
    requires
        x >= 0,
        m > 0,
    ensures
        0 <= x % m < m,
        (x + 1) % m == if x % m < m - 1 {
            x % m + 1
        } else {
            0
        },
{
    vstd::arithmetic::div_mod::lemma_fundamental_div_mod(x, m);
    vstd::arithmetic::div_mod::lemma_mod_bound(x, m);
    let q = x / m;
    let r = x % m;
    if r < m - 1 {
        assert(x + 1 == q * m + (r + 1)) by (nonlinear_arith)
            requires
                x == m * q + r,
        ;
        vstd::arithmetic::div_mod::lemma_fundamental_div_mod_converse(x + 1, m, q, r + 1);
    } else {
        assert(x + 1 == (q + 1) * m + 0) by (nonlinear_arith)
            requires
                x == m * q + r,
                r == m - 1,
        ;
        vstd::arithmetic::div_mod::lemma_fundamental_div_mod_converse(x + 1, m, q + 1, 0);
    }
}

/// The sponsor index after `k` steps of a shown roll.
pub open spec fn roll(idx: usize, len: usize, k: nat) -> int
    decreases k,
{
    if k == 0 {
        idx as int
    } else {
        next_sponsor(roll(idx, len, (k - 1) as nat) as usize, true, len) as int
    }
}

pub const SPONSOR_TAG_0: &'static str = "<img class=\"ol-sponsor-img\" src=\"data:image/";

pub const SPONSOR_TAG_1: &'static str = ";base64,";

pub const SPONSOR_TAG_2: &'static str = "\" alt=\"away-img\" height=\"auto\">";

/// The overlay's image tag for a sponsor logo.
pub open spec fn sponsor_tag(mime: Seq<char>, b64: Seq<char>) -> Seq<char> {
    SPONSOR_TAG_0@ + mime + SPONSOR_TAG_1@ + b64 + SPONSOR_TAG_2@
}

/// The overlay's image tag for a sponsor file.
pub open spec fn sponsor_file_tag(name: Seq<char>, bytes: Seq<u8>) -> Seq<char> {
    sponsor_tag(image_mime(extension(name)), base64_standard(bytes))
}

/// Builds the overlay's image tag for a sponsor file.
pub fn sponsor_img_tag(name: &str, bytes: &[u8]) -> (r: String)
    requires
        has_extension(name@),
    ensures
        r@ == sponsor_file_tag(name@, bytes@),
{
    let ext = dot_segment(name, 1).unwrap();
    let mime = image_mime_type(ext.as_str());
    let b64 = base64_encode(bytes);
    let mut s = String::new();
    s.append(SPONSOR_TAG_0);
    s.append(mime);
    s.append(SPONSOR_TAG_1);
    s.append(b64.as_str());
    s.append(SPONSOR_TAG_2);
    proof {
        assert(s@ =~= sponsor_file_tag(name@, bytes@));
    }
    s
}

/// Whether every file in a list has an extension.
pub open spec fn all_have_extensions(files: Seq<(String, Vec<u8>)>) -> bool {
    forall|i: int| 0 <= i < files.len() ==> has_extension(#[trigger] files[i].0@)
}

/// Adds the tags of the given sponsor files (name and contents) to the
/// roll, in order; the roll restarts at the first sponsor when any file was
/// added.
pub fn load_sponsors(
    tags: &mut Vec<String>,
    idx: &mut usize,
    files: &Vec<(String, Vec<u8>)>,
)
    requires
        all_have_extensions(files@),
    ensures
        final(tags)@.len() == old(tags)@.len() + files@.len(),
        forall|i: int| 0 <= i < old(tags)@.len() ==> #[trigger] final(tags)@[i] == old(tags)@[i],
        forall|i: int|
            0 <= i < files@.len() ==> #[trigger] final(tags)@[old(tags)@.len() + i]@
                == sponsor_file_tag(files@[i].0@, files@[i].1@),
        *final(idx) == if files@.len() > 0 {
            0
        } else {
            *old(idx)
        },
{
    let n = files.len();
    let mut i: usize = 0;
    while i < n
        invariant
            n == files@.len(),
            i <= n,
            all_have_extensions(files@),
            tags@.len() == old(tags)@.len() + i,
            forall|j: int| 0 <= j < old(tags)@.len() ==> #[trigger] tags@[j] == old(tags)@[j],
            forall|j: int|
                0 <= j < i ==> #[trigger] tags@[old(tags)@.len() + j]@ == sponsor_file_tag(
                    files@[j].0@,
                    files@[j].1@,
                ),
            *idx == if i > 0 {
                0
            } else {
                *old(idx)
            },
        decreases n - i,
    {
        assert(has_extension(files@[i as int].0@));
        let tag = sponsor_img_tag(files[i].0.as_str(), files[i].1.as_slice());
        *idx = 0;
        tags.push(tag);
        i = i + 1;
    }
}

pub const SPONSOR_ENTRY_0: &'static str = "<div class=\"sponsor-wrapper\">\n                <img src=\"data:image/";

pub const SPONSOR_ENTRY_1: &'static str = ";base64,";

pub const SPONSOR_ENTRY_2: &'static str = "\" alt=\"away-img\" height=\"30px\" width=\"auto\">\n                <button class=\"remove-button\" hx-post=\"/sponsors/remove/";

pub const SPONSOR_ENTRY_3: &'static str = "\" hx-swap=\"none\">Remove</button>\n            </div>";

/// One sponsor in the management list: its logo and a remove button for
/// its identifier (the file name before the dot).
pub open spec fn sponsor_entry(name: Seq<char>, bytes: Seq<u8>) -> Seq<char> {
    SPONSOR_ENTRY_0@ + image_mime(extension(name)) + SPONSOR_ENTRY_1@ + base64_standard(bytes)
        + SPONSOR_ENTRY_2@ + stem(name) + SPONSOR_ENTRY_3@
}

/// The management list: the entries of all sponsor files, one after another.
pub open spec fn sponsors_list(files: Seq<(String, Vec<u8>)>) -> Seq<char>
    decreases files.len(),
{
    if files.len() == 0 {
        Seq::empty()
    } else {
        sponsors_list(files.drop_last()) + sponsor_entry(files.last().0@, files.last().1@)
    }
}

/// The sponsor management list.
pub fn sponsors_management_handler(files: &Vec<(String, Vec<u8>)>) -> (r: String)
    requires
        all_have_extensions(files@),
    ensures
        r@ == sponsors_list(files@),
{
    let n = files.len();
    let mut s = String::new();
    let mut i: usize = 0;
    while i < n
        invariant
            n == files@.len(),
            i <= n,
            all_have_extensions(files@),
            s@ == sponsors_list(files@.take(i as int)),
        decreases n - i,
    {
        let name = files[i].0.as_str();
        assert(has_extension(name@));
        let stem_text = dot_segment(name, 0).unwrap();
        let ext = dot_segment(name, 1).unwrap();
        s.append(SPONSOR_ENTRY_0);
        s.append(image_mime_type(ext.as_str()));
        s.append(SPONSOR_ENTRY_1);
        s.append(base64_encode(files[i].1.as_slice()).as_str());
        s.append(SPONSOR_ENTRY_2);
        s.append(stem_text.as_str());
        s.append(SPONSOR_ENTRY_3);
        proof {
            let t = files@.take(i + 1);
            assert(t.drop_last() =~= files@.take(i as int));
            assert(t.last() == files@[i as int]);
            assert(s@ =~= sponsors_list(t));
        }
        i = i + 1;
    }
    assert(files@.take(n as int) =~= files@);
    s
}

/// The first sponsor file whose identifier (the name before its first dot)
/// is `id`.
pub fn sponsor_remove_handler(names: &Vec<String>, id: &str) -> (r: Option<usize>)
    ensures
        match r {
            Some(i) => i < names@.len() && stem(names@[i as int]@) == id@ && forall|j: int|
                0 <= j < i ==> stem(#[trigger] names@[j]@) != id@,
            None => forall|j: int| 0 <= j < names@.len() ==> stem(#[trigger] names@[j]@) != id@,
        },
{
    let n = names.len();
    let mut i: usize = 0;
    while i < n
        invariant
            n == names@.len(),
            i <= n,
            forall|j: int| 0 <= j < i ==> stem(#[trigger] names@[j]@) != id@,
        decreases n - i,
    {
        let s = dot_segment(names[i].as_str(), 0);
        proof {
            crate::text::lemma_dot_segments_nonempty(names@[i as int]@);
        }
        let seg = s.unwrap();
        if str_equal(seg.as_str(), id) {
            return Some(i);
        }
        i = i + 1;
    }
    None
}

/// The path where an uploaded sponsor file is stored:
/// `./sponsors/<id>.<extension of the uploaded name>`.
pub open spec fn sponsor_upload_path(id: Seq<char>, upload_name: Seq<char>) -> Seq<char> {
    "./sponsors/"@ + id + "."@ + extension(upload_name)
}

/// The path for a new sponsor file.
pub fn upload_sponsors_handler(id: &str, upload_name: &str) -> (r: String)
    requires
        has_extension(upload_name@),
    ensures
        r@ == sponsor_upload_path(id@, upload_name@),
{
    let ext = dot_segment(upload_name, 1).unwrap();
    let mut s = String::from_str("./sponsors/");
    s.append(id);
    s.append(".");
    s.append(ext.as_str());
    s
}

/// The management list of two batches of files is the list of the first
/// followed by the list of the second, and the list of one file is that
/// file's entry: so the list holds one entry per file, in order.
pub proof fn lemma_sponsors_list_append(a: Seq<(String, Vec<u8>)>, b: Seq<(String, Vec<u8>)>)
    ensures
        sponsors_list(a + b) == sponsors_list(a) + sponsors_list(b),
    decreases b.len(),
{
    if b.len() == 0 {
        assert(a + b =~= a);
        assert(sponsors_list(a) + sponsors_list(b) =~= sponsors_list(a));
    } else {
        lemma_sponsors_list_append(a, b.drop_last());
        assert((a + b).drop_last() =~= a + b.drop_last());
        assert((a + b).last() == b.last());
    }
}

/// The management list of a single file is that file's entry.
pub proof fn lemma_sponsors_list_single(f: (String, Vec<u8>))
    ensures
        sponsors_list(seq![f]) == sponsor_entry(f.0@, f.1@),
{
    assert(seq![f].drop_last() =~= Seq::<(String, Vec<u8>)>::empty());
    assert(sponsors_list(seq![f].drop_last()).len() == 0);
    assert(sponsors_list(seq![f]) =~= sponsor_entry(f.0@, f.1@));
}

/// Every sponsor file has its entry, with its logo and remove button, in
/// the management list.
pub proof fn lemma_every_sponsor_listed(files: Seq<(String, Vec<u8>)>, i: int)
    requires
        0 <= i < files.len(),
    ensures
        crate::text::occurs_in(sponsor_entry(files[i].0@, files[i].1@), sponsors_list(files)),
{
    let f = files[i];
    let before = files.take(i);
    let after = files.skip(i + 1);
    assert(files =~= before + seq![f] + after);
    lemma_sponsors_list_append(before + seq![f], after);
    lemma_sponsors_list_append(before, seq![f]);
    lemma_sponsors_list_single(f);
    let e = sponsor_entry(f.0@, f.1@);
    crate::text::lemma_occurs_concat(e);
    assert(crate::text::occurs_in(e, sponsors_list(before) + e));
}

} // verus!
