//! The rules of the image store: one directory per camera, one file per
//! image, named by the second it was taken and listed in the order of
//! the names.

use crate::api_error::{ApiError, Status};
use crate::effect::{Listing, ListingView};
use crate::identifier::{format_uuid, hyphenated};
use vstd::prelude::*;
use vstd::relations::{sorted_by, total_ordering};
use vstd::seq_lib::{lemma_sorted_unique, to_multiset_build, to_multiset_remove};
use vstd::utf8::char_u32_cast;

verus! {

pub const NO_IMAGES: &'static str = "Camera has no images (or doesn't exist)";

pub const FAILED_TO_LIST_IMAGES: &'static str = "Failed to get list of images";

/// `a` comes no later than `b` in the order of names: character by
/// character by code point, a name before every name it is a proper
/// beginning of. This is the order of the names as texts, not as
/// numbers: "100" comes before "20".
pub open spec fn precedes(a: Seq<char>, b: Seq<char>) -> bool
    decreases a.len(),
{
    if a.len() == 0 {
        true
    } else if b.len() == 0 {
        false
    } else if a[0] != b[0] {
        (a[0] as u32) < (b[0] as u32)
    } else {
        precedes(a.drop_first(), b.drop_first())
    }
}

/// Of two names one comes no later than the other.
pub proof fn lemma_precedes_is_total(a: Seq<char>, b: Seq<char>)
    ensures
        precedes(a, b) || precedes(b, a),
    decreases a.len(),
{
    if a.len() > 0 && b.len() > 0 {
        if a[0] == b[0] {
            lemma_precedes_is_total(a.drop_first(), b.drop_first());
        } else {
            let x = a[0];
            let y = b[0];
            char_u32_cast(x, x as u32);
            char_u32_cast(y, y as u32);
        }
    }
}

/// The order of names is transitive.
pub proof fn lemma_precedes_is_transitive(a: Seq<char>, b: Seq<char>, c: Seq<char>)
    requires
        precedes(a, b),
        precedes(b, c),
    ensures
        precedes(a, c),
    decreases a.len(),
{
    if a.len() > 0 && b.len() > 0 && c.len() > 0 && a[0] == b[0] && b[0] == c[0] {
        lemma_precedes_is_transitive(a.drop_first(), b.drop_first(), c.drop_first());
    }
}

/// Two names that each come no later than the other are one name, so a
/// set of names has one listing in order.
pub proof fn lemma_precedes_is_antisymmetric(a: Seq<char>, b: Seq<char>)
    requires
        precedes(a, b),
        precedes(b, a),
    ensures
        a == b,
    decreases a.len(),
{
    if a.len() > 0 && b.len() > 0 {
        lemma_precedes_is_antisymmetric(a.drop_first(), b.drop_first());
        assert(a =~= seq![a[0]] + a.drop_first());
        assert(b =~= seq![b[0]] + b.drop_first());
    } else {
        assert(a =~= b);
    }
}

/// Decides the order of two names.
pub fn name_precedes(a: &str, b: &str) -> (earlier: bool)
    ensures
        earlier == precedes(a@, b@),
{
    let a_len = a.unicode_len();
    let b_len = b.unicode_len();
    let mut i: usize = 0;
    assert(a@.skip(0) =~= a@ && b@.skip(0) =~= b@);
    while i < a_len && i < b_len
        invariant
            a_len == a@.len(),
            b_len == b@.len(),
            i <= a_len,
            i <= b_len,
            precedes(a@, b@) == precedes(a@.skip(i as int), b@.skip(i as int)),
        decreases a_len - i,
    {
        let x = a.get_char(i);
        let y = b.get_char(i);
        proof {
            assert(a@.skip(i as int)[0] == x);
            assert(b@.skip(i as int)[0] == y);
            assert(a@.skip(i as int).drop_first() =~= a@.skip(i + 1));
            assert(b@.skip(i as int).drop_first() =~= b@.skip(i + 1));
        }
        if x != y {
            return (x as u32) < (y as u32);
        }
        i += 1;
    }
    i == a_len
}

/// The names stand in order.
pub open spec fn ordered(names: Seq<Seq<char>>) -> bool {
    forall|i: int, j: int| 0 <= i <= j < names.len() ==> precedes(names[i], names[j])
}

/// The order of names as a relation.
pub open spec fn name_order() -> spec_fn(Seq<char>, Seq<char>) -> bool {
    |a: Seq<char>, b: Seq<char>| precedes(a, b)
}

/// The names, put in order.
pub open spec fn in_order(names: Seq<Seq<char>>) -> Seq<Seq<char>> {
    names.sort_by(name_order())
}

/// The order of names is a total order.
pub proof fn lemma_name_order_is_total()
    ensures
        total_ordering(name_order()),
{
    let order = name_order();
    assert forall|x: Seq<char>| #[trigger] order(x, x) by {
        lemma_precedes_is_total(x, x);
    }
    assert forall|x: Seq<char>, y: Seq<char>| #[trigger] order(x, y) && #[trigger] order(
        y,
        x,
    ) implies x == y by {
        lemma_precedes_is_antisymmetric(x, y);
    }
    assert forall|x: Seq<char>, y: Seq<char>, z: Seq<char>| #[trigger] order(x, y)
        && #[trigger] order(y, z) implies order(x, z) by {
        lemma_precedes_is_transitive(x, y, z);
    }
    assert forall|x: Seq<char>, y: Seq<char>| #[trigger] order(x, y) || #[trigger] order(y, x) by {
        lemma_precedes_is_total(x, y);
    }
}

/// Putting names in order keeps every name, as often as it was there,
/// and leaves each name no later than those behind it. There is one such
/// listing: whatever is in order and holds the same names is it.
pub proof fn lemma_in_order_is_the_ordered_listing(names: Seq<Seq<char>>, listing: Seq<Seq<char>>)
    ensures
        ordered(in_order(names)),
        in_order(names).to_multiset() == names.to_multiset(),
        in_order(names).len() == names.len(),
        ordered(listing) && listing.to_multiset() == names.to_multiset() ==> listing == in_order(
            names,
        ),
{
    lemma_name_order_is_total();
    names.lemma_sort_by_ensures(name_order());
    let sorted = in_order(names);
    assert(sorted_by(sorted, name_order()));
    assert forall|i: int, j: int| 0 <= i <= j < sorted.len() implies precedes(
        sorted[i],
        sorted[j],
    ) by {
        if i == j {
            lemma_precedes_is_total(sorted[i], sorted[i]);
        } else {
            assert(name_order()(sorted[i], sorted[j]));
        }
    }
    sorted.to_multiset_ensures();
    names.to_multiset_ensures();
    if ordered(listing) && listing.to_multiset() == names.to_multiset() {
        assert(sorted_by(listing, name_order())) by {
            assert forall|i: int, j: int|
                0 <= i < j < listing.len() implies #[trigger] name_order()(
                listing[i],
                listing[j],
            ) by {
                assert(precedes(listing[i], listing[j]));
            }
        }
        lemma_sorted_unique(listing, sorted, name_order());
    }
}

proof fn lemma_insert_adds_one<A>(s: Seq<A>, at: int, a: A)
    requires
        0 <= at <= s.len(),
    ensures
        s.insert(at, a).to_multiset() == s.to_multiset().insert(a),
{
    let t = s.insert(at, a);
    assert(t.remove(at) =~= s);
    to_multiset_remove(t, at);
    assert(t[at] == a);
    t.to_multiset_ensures();
    assert(t.contains(a));
    assert(t.to_multiset() =~= s.to_multiset().insert(a));
}

/// Puts names in order. The result holds the same names, each as often
/// as before.
pub fn sort_names(names: Vec<String>) -> (sorted: Vec<String>)
    ensures
        sorted.deep_view() == in_order(names.deep_view()),
{
    let mut sorted: Vec<String> = Vec::new();
    let mut i: usize = 0;
    assert(names.deep_view().subrange(0, 0) =~= sorted.deep_view());
    while i < names.len()
        invariant
            i <= names.len(),
            ordered(sorted.deep_view()),
            sorted.deep_view().to_multiset() == names.deep_view().subrange(
                0,
                i as int,
            ).to_multiset(),
        decreases names.len() - i,
    {
        let name = names[i].clone();
        let ghost before = sorted.deep_view();
        let mut at: usize = 0;
        while at < sorted.len() && name_precedes(sorted[at].as_str(), name.as_str())
            invariant
                at <= sorted.len(),
                sorted.deep_view() == before,
                forall|k: int| 0 <= k < at ==> precedes(#[trigger] before[k], name@),
            decreases sorted.len() - at,
        {
            at += 1;
        }
        sorted.insert(at, name);
        proof {
            let after = sorted.deep_view();
            assert(after =~= before.insert(at as int, name@));
            assert forall|p: int, q: int| 0 <= p <= q < after.len() implies precedes(
                after[p],
                after[q],
            ) by {
                if q == at {
                    if p == at {
                        lemma_precedes_is_total(name@, name@);
                    }
                } else if p == at {
                    lemma_precedes_is_total(before[at as int], name@);
                    lemma_precedes_is_transitive(name@, before[at as int], after[q]);
                } else if p < at && q > at {
                    assert(after[p] == before[p]);
                    assert(after[q] == before[q - 1]);
                } else if p < at {
                    assert(after[p] == before[p]);
                    assert(after[q] == before[q]);
                } else {
                    assert(after[p] == before[p - 1]);
                    assert(after[q] == before[q - 1]);
                }
            }
            lemma_insert_adds_one(before, at as int, name@);
            let all = names.deep_view();
            assert(all.subrange(0, i + 1) =~= all.subrange(0, i as int).push(name@));
            to_multiset_build(all.subrange(0, i as int), name@);
        }
        i += 1;
    }
    proof {
        assert(names.deep_view().subrange(0, i as int) =~= names.deep_view());
        lemma_in_order_is_the_ordered_listing(names.deep_view(), sorted.deep_view());
    }
    sorted
}

/// What a look into a camera's directory amounts to. A directory that is
/// not there and one without files both mean that there are no images;
/// a directory that cannot be read is a failure. Otherwise the names are
/// handed on: in order if `sort` is set, else as they came.
pub open spec fn directory_listing(listing: ListingView, sort: bool) -> Result<
    Seq<Seq<char>>,
    ApiError,
> {
    match listing {
        ListingView::Missing => Err(ApiError::new(NO_IMAGES, Status::NotFound)),
        ListingView::Unreadable => Err(ApiError::internal(FAILED_TO_LIST_IMAGES)),
        ListingView::Entries(names) => if names.len() == 0 {
            Err(ApiError::new(NO_IMAGES, Status::NotFound))
        } else if sort {
            Ok(in_order(names))
        } else {
            Ok(names)
        },
    }
}

/// The view of a list of names or a failure.
pub open spec fn names_view(answer: Result<Vec<String>, ApiError>) -> Result<
    Seq<Seq<char>>,
    ApiError,
> {
    match answer {
        Ok(names) => Ok(names.deep_view()),
        Err(failure) => Err(failure),
    }
}

/// Judges what a look into a camera's directory found, and puts the
/// names in order if asked to.
pub fn list_camera_directory(listing: Listing, sort: bool) -> (answer: Result<
    Vec<String>,
    ApiError,
>)
    ensures
        names_view(answer) == directory_listing(listing@, sort),
        answer matches Ok(names) ==> names.len() > 0,
{
    match listing {
        Listing::Missing => Err(ApiError::new(NO_IMAGES, Status::NotFound)),
        Listing::Unreadable => Err(ApiError::internal(FAILED_TO_LIST_IMAGES)),
        Listing::Entries(names) => {
            if names.len() == 0 {
                Err(ApiError::new(NO_IMAGES, Status::NotFound))
            } else if sort {
                proof {
                    lemma_in_order_is_the_ordered_listing(names.deep_view(), Seq::empty());
                }
                Ok(sort_names(names))
            } else {
                Ok(names)
            }
        },
    }
}

/// The name of the file that holds the image `id`: the first of `names`
/// whose stem is the id, if there is one.
pub open spec fn image_file(names: Seq<Seq<char>>, id: Seq<char>) -> Option<Seq<char>>
    decreases names.len(),
{
    if names.len() == 0 {
        None
    } else if file_stem(names[0]) == id {
        Some(names[0])
    } else {
        image_file(names.drop_first(), id)
    }
}

/// The view of a name, if there is one.
pub open spec fn name_view(name: Option<String>) -> Option<Seq<char>> {
    match name {
        Some(name) => Some(name@),
        None => None,
    }
}

/// Looks for the file that holds the image `id`.
pub fn find_image(names: &Vec<String>, id: &String) -> (file: Option<String>)
    ensures
        name_view(file) == image_file(names.deep_view(), id@),
{
    let mut i: usize = 0;
    assert(names.deep_view().skip(0) =~= names.deep_view());
    while i < names.len()
        invariant
            i <= names.len(),
            image_file(names.deep_view(), id@) == image_file(
                names.deep_view().skip(i as int),
                id@,
            ),
        decreases names.len() - i,
    {
        let stem = image_id(names[i].as_str());
        proof {
            let rest = names.deep_view().skip(i as int);
            assert(rest[0] == names@[i as int]@);
            assert(rest.drop_first() =~= names.deep_view().skip(i + 1));
        }
        if stem == *id {
            return Some(names[i].clone());
        }
        i += 1;
    }
    None
}

/// A copy of a list of names.
pub fn copy_names(names: &Vec<String>) -> (copy: Vec<String>)
    ensures
        copy.deep_view() == names.deep_view(),
{
    let mut copy: Vec<String> = Vec::new();
    let mut i: usize = 0;
    while i < names.len()
        invariant
            i <= names.len(),
            copy.len() == i,
            forall|k: int| 0 <= k < i ==> (#[trigger] copy@[k])@ == names@[k]@,
        decreases names.len() - i,
    {
        copy.push(names[i].clone());
        i += 1;
    }
    assert(copy.deep_view() =~= names.deep_view());
    copy
}

/// The directory of this name under the root of the image store.
pub fn camera_directory(images_directory_path: &String, camera_id_string: &String) -> (path:
    String)
    ensures
        path@ == images_directory_path@ + seq!['/'] + camera_id_string@,
{
    let mut path = images_directory_path.clone();
    proof {
        reveal_strlit("/");
        assert("/"@ =~= seq!['/']);
    }
    path.append("/");
    path.append(camera_id_string.as_str());
    path
}

/// The directory of a camera's images under the root of the image
/// store: it is named by the camera's identifier in its canonical text.
pub open spec fn camera_path(images_directory: Seq<char>, camera_id: u128) -> Seq<char> {
    images_directory + seq!['/'] + hyphenated(camera_id)
}

/// The directory of a camera's images under the root of the image store.
pub fn directory_of_camera(images_directory_path: &String, camera_id: u128) -> (path: String)
    ensures
        path@ == camera_path(images_directory_path@, camera_id),
{
    let camera_id_string = format_uuid(camera_id);
    camera_directory(images_directory_path, &camera_id_string)
}

/// The place of the last full stop in a name, or -1 if it has none.
pub open spec fn last_dot(name: Seq<char>) -> int
    decreases name.len(),
{
    if name.len() == 0 {
        -1
    } else if name.last() == '.' {
        name.len() - 1
    } else {
        last_dot(name.drop_last())
    }
}

/// A file's name without its extension: what stands before the last
/// full stop, or the whole name where it has no full stop or only one
/// at its very beginning. For an image file this is the image's id.
pub open spec fn file_stem(name: Seq<char>) -> Seq<char> {
    let dot = last_dot(name);
    if dot <= 0 {
        name
    } else {
        name.subrange(0, dot)
    }
}

/// The id of the image that a file of this name holds.
pub fn image_id(file_name: &str) -> (id: String)
    ensures
        id@ == file_stem(file_name@),
{
    let len = file_name.unicode_len();
    let mut end: usize = len;
    assert(file_name@.subrange(0, end as int) =~= file_name@);
    while end > 0 && file_name.get_char(end - 1) != '.'
        invariant
            end <= len,
            len == file_name@.len(),
            last_dot(file_name@) == last_dot(file_name@.subrange(0, end as int)),
        decreases end,
    {
        assert(file_name@.subrange(0, end as int).drop_last() =~= file_name@.subrange(
            0,
            end - 1,
        ));
        end -= 1;
    }
    if end <= 1 {
        String::from_str(file_name)
    } else {
        String::from_str(file_name.substring_char(0, end - 1))
    }
}

/// The stems of the names, in the order of the names.
pub open spec fn stems(names: Seq<Seq<char>>) -> Seq<Seq<char>> {
    names.map_values(|name: Seq<char>| file_stem(name))
}

/// The ids of the images that files of these names hold, in the order
/// of the names.
pub fn image_ids(names: &Vec<String>) -> (ids: Vec<String>)
    ensures
        ids.deep_view() == stems(names.deep_view()),
{
    let mut ids: Vec<String> = Vec::new();
    let mut i: usize = 0;
    while i < names.len()
        invariant
            i <= names.len(),
            ids.len() == i,
            forall|k: int| 0 <= k < i ==> (#[trigger] ids@[k])@ == file_stem(names@[k]@),
        decreases names.len() - i,
    {
        let id = image_id(names[i].as_str());
        ids.push(id);
        i += 1;
    }
    assert(ids.deep_view() =~= stems(names.deep_view()));
    ids
}

/// The decimal digit for a value below ten.
pub open spec fn digit(value: nat) -> char
    recommends
        value < 10,
{
    seq!['0', '1', '2', '3', '4', '5', '6', '7', '8', '9'][value as int]
}

/// A number in decimal, without sign or leading zeros.
pub open spec fn decimal(n: nat) -> Seq<char>
    decreases n,
{
    if n < 10 {
        seq![digit(n)]
    } else {
        decimal(n / 10).push(digit(n % 10))
    }
}

fn digit_text(value: u64) -> (text: &'static str)
    requires
        value < 10,
    ensures
        text@ == seq![digit(value as nat)],
{
    proof {
        reveal_strlit("0");
        reveal_strlit("1");
        reveal_strlit("2");
        reveal_strlit("3");
        reveal_strlit("4");
        reveal_strlit("5");
        reveal_strlit("6");
        reveal_strlit("7");
        reveal_strlit("8");
        reveal_strlit("9");
    }
    let text = match value {
        0 => "0",
        1 => "1",
        2 => "2",
        3 => "3",
        4 => "4",
        5 => "5",
        6 => "6",
        7 => "7",
        8 => "8",
        _ => "9",
    };
    assert(text@ =~= seq![digit(value as nat)]);
    text
}

/// Writes a count of seconds in decimal: the id of the image taken then.
pub fn seconds_text(seconds: u64) -> (text: String)
    ensures
        text@ == decimal(seconds as nat),
{
    let mut text = String::from_str(digit_text(seconds % 10));
    let mut rest: u64 = seconds / 10;
    while rest > 0
        invariant
            rest == 0 ==> text@ == decimal(seconds as nat),
            rest > 0 ==> decimal(seconds as nat) == decimal(rest as nat) + text@,
        decreases rest,
    {
        let front = String::from_str(digit_text(rest % 10));
        proof {
            let d = seq![digit((rest % 10) as nat)];
            if rest >= 10 {
                assert(decimal(rest as nat) == decimal((rest / 10) as nat) + d);
                assert((decimal((rest / 10) as nat) + d) + text@ =~= decimal((rest / 10) as nat)
                    + (d + text@));
            }
        }
        text = front.concat(text.as_str());
        rest = rest / 10;
    }
    text
}

/// The name of the file for the image taken at this second.
pub fn image_file_name(seconds: u64) -> (name: String)
    ensures
        name@ == decimal(seconds as nat) + seq!['.', 'j', 'p', 'g'],
{
    proof {
        reveal_strlit(".jpg");
        assert(".jpg"@ =~= seq!['.', 'j', 'p', 'g']);
    }
    seconds_text(seconds).concat(".jpg")
}

} // verus!
