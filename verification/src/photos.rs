//! What is stored of a photo: its size and date, as its metadata give
//! them, and the three labels that describe it best.

use vstd::prelude::*;
use crate::values::Attribute;
use crate::values::AttributeValue;
use crate::values::Entries;
use crate::values::Item;
use crate::values::put;

verus! {

/// Size and date of a photo, as text. A part is empty where the metadata
/// do not give it.
#[derive(Debug, PartialEq, Eq)]
pub struct Edata {
    pub height: String,
    pub width: String,
    pub created: String,
}

/// The mathematical counterpart of [`Edata`].
pub ghost struct EdataView {
    pub height: Seq<char>,
    pub width: Seq<char>,
    pub created: Seq<char>,
}

impl View for Edata {
    type V = EdataView;

    open spec fn view(&self) -> EdataView {
        EdataView { height: self.height@, width: self.width@, created: self.created@ }
    }
}

/// A label that was detected in a photo.
#[derive(Debug, PartialEq, Eq)]
pub struct Litem {
    /// What the label says.
    pub name: String,
    /// How sure the detection is, as text.
    pub confidence: String,
    /// How sure the detection is, as a number by which labels are
    /// ordered: a higher rank is a higher confidence.
    pub rank: u32,
}

/// The mathematical counterpart of [`Litem`].
pub ghost struct LitemView {
    pub name: Seq<char>,
    pub confidence: Seq<char>,
    pub rank: u32,
}

impl View for Litem {
    type V = LitemView;

    open spec fn view(&self) -> LitemView {
        LitemView { name: self.name@, confidence: self.confidence@, rank: self.rank }
    }
}

/// The metadata fields of a photo as pairs of tag and value.
pub open spec fn fields_view(fields: Seq<(String, String)>) -> Seq<(Seq<char>, Seq<char>)> {
    Seq::new(fields.len(), |i: int| (fields[i].0@, fields[i].1@))
}

/// `data` with one more field taken in: the value of `ImageWidth` is
/// appended to the height, that of `ImageLength` to the width, that of
/// `DateTimeOriginal` to the date; any other field is passed over.
pub open spec fn with_field(data: EdataView, tag: Seq<char>, value: Seq<char>) -> EdataView {
    if tag == "ImageWidth"@ {
        EdataView { height: data.height + value, ..data }
    } else if tag == "ImageLength"@ {
        EdataView { width: data.width + value, ..data }
    } else if tag == "DateTimeOriginal"@ {
        EdataView { created: data.created + value, ..data }
    } else {
        data
    }
}

/// What the fields say of size and date, taken in one after the other.
pub open spec fn exif_data(fields: Seq<(Seq<char>, Seq<char>)>) -> EdataView
    decreases fields.len(),
{
    if fields.len() == 0 {
        EdataView { height: Seq::empty(), width: Seq::empty(), created: Seq::empty() }
    } else {
        with_field(exif_data(fields.drop_last()), fields.last().0, fields.last().1)
    }
}

/// Gathers size and date of a photo from its metadata fields, given as
/// pairs of tag and value.
pub fn get_exif_data(fields: &Vec<(String, String)>) -> (edata: Edata)
    ensures
        edata@ == exif_data(fields_view(fields@)),
{
    let mut edata = Edata { height: String::new(), width: String::new(), created: String::new() };
    let image_width = "ImageWidth".to_owned();
    let image_length = "ImageLength".to_owned();
    let date_time_original = "DateTimeOriginal".to_owned();
    let ghost all = fields_view(fields@);
    let mut i: usize = 0;
    while i < fields.len()
        invariant
            i <= fields.len(),
            all == fields_view(fields@),
            image_width@ == "ImageWidth"@,
            image_length@ == "ImageLength"@,
            date_time_original@ == "DateTimeOriginal"@,
            edata@ == exif_data(all.take(i as int)),
        decreases fields.len() - i,
    {
        let tag = &fields[i].0;
        let value = fields[i].1.as_str();
        proof {
            let next = all.take(i + 1);
            assert(next.drop_last() =~= all.take(i as int));
            assert(next.last() == (tag@, value@));
        }
        if *tag == image_width {
            edata.height.append(value);
        } else if *tag == image_length {
            edata.width.append(value);
        } else if *tag == date_time_original {
            edata.created.append(value);
        }
        i = i + 1;
    }
    assert(all.take(i as int) =~= all);
    edata
}

/// Whether the label at `i` comes before the label at `j` when labels are
/// ordered by falling rank and, among equal ranks, by their place.
pub open spec fn outranks(ranks: Seq<u32>, i: int, j: int) -> bool {
    ranks[i] > ranks[j] || (ranks[i] == ranks[j] && i < j)
}

/// Whether `i` is a place in `ranks` other than those in `taken`.
pub open spec fn free(ranks: Seq<u32>, taken: Seq<int>, i: int) -> bool {
    0 <= i < ranks.len() && !taken.contains(i)
}

/// Whether `best` is the free place that comes before every other one.
pub open spec fn leads(ranks: Seq<u32>, taken: Seq<int>, best: int) -> bool {
    &&& free(ranks, taken, best)
    &&& forall|j: int| free(ranks, taken, j) && j != best ==> outranks(ranks, best, j)
}

/// Whether `first`, `second` and `third` are the places of the three
/// labels that come first when labels are ordered by falling rank and,
/// among equal ranks, by their place.
pub open spec fn top_three(ranks: Seq<u32>, first: int, second: int, third: int) -> bool {
    &&& leads(ranks, Seq::empty(), first)
    &&& leads(ranks, seq![first], second)
    &&& leads(ranks, seq![first, second], third)
}

/// The ranks of the labels.
pub open spec fn ranks_of(labels: Seq<Litem>) -> Seq<u32> {
    Seq::new(labels.len(), |i: int| labels[i].rank)
}

/// Finds the free place that leads, where `first` and `second` are taken
/// if they are given.
fn leader(labels: &Vec<Litem>, first: Option<usize>, second: Option<usize>) -> (best: usize)
    requires
        exists|i: int| free(ranks_of(labels@), taken(first, second), i),
    ensures
        leads(ranks_of(labels@), taken(first, second), best as int),
{
    let ghost ranks = ranks_of(labels@);
    let ghost out = taken(first, second);
    let mut best: Option<usize> = None;
    let mut i: usize = 0;
    while i < labels.len()
        invariant
            i <= labels.len(),
            ranks == ranks_of(labels@),
            out == taken(first, second),
            match best {
                Some(b) => b < i && free(ranks, out, b as int) && forall|j: int|
                    0 <= j < i && free(ranks, out, j) && j != b ==> outranks(ranks, b as int, j),
                None => forall|j: int| 0 <= j < i ==> !free(ranks, out, j),
            },
        decreases labels.len() - i,
    {
        let is_taken = (match first {
            Some(f) => f == i,
            None => false,
        }) || (match second {
            Some(s) => s == i,
            None => false,
        });
        assert(is_taken == out.contains(i as int)) by {
            lemma_taken(first, second, i as int);
        }
        if !is_taken {
            match best {
                Some(b) => {
                    if labels[i].rank > labels[b].rank {
                        best = Some(i);
                    }
                },
                None => {
                    best = Some(i);
                },
            }
        }
        i = i + 1;
    }
    match best {
        Some(b) => b,
        None => {
            proof {
                let i = choose|i: int| free(ranks, out, i);
                assert(!free(ranks, out, i));
            }
            0
        },
    }
}

/// The places that are taken, as a sequence.
pub open spec fn taken(first: Option<usize>, second: Option<usize>) -> Seq<int> {
    match (first, second) {
        (Some(f), Some(s)) => seq![f as int, s as int],
        (Some(f), None) => seq![f as int],
        (None, Some(s)) => seq![s as int],
        (None, None) => Seq::empty(),
    }
}

proof fn lemma_taken(first: Option<usize>, second: Option<usize>, i: int)
    ensures
        taken(first, second).contains(i) == ((first matches Some(f) && f == i) || (
        second matches Some(s) && s == i)),
{
    let out = taken(first, second);
    match (first, second) {
        (Some(f), Some(s)) => {
            assert(out[0] == f && out[1] == s);
        },
        (Some(f), None) => {
            assert(out[0] == f);
        },
        (None, Some(s)) => {
            assert(out[0] == s);
        },
        (None, None) => {},
    }
}

/// Picks the three labels that describe a photo best: those that come
/// first when the labels are ordered by falling rank and, among equal
/// ranks, in the order in which they were detected.
pub fn get_label_data(labels: &Vec<Litem>) -> (best: Vec<Litem>)
    requires
        labels@.len() >= 3,
    ensures
        best@.len() == 3,
        exists|first: int, second: int, third: int|
            top_three(ranks_of(labels@), first, second, third) && best@[0]@ == labels@[first]@
                && best@[1]@ == labels@[second]@ && best@[2]@ == labels@[third]@,
{
    let ghost ranks = ranks_of(labels@);
    assert(free(ranks, taken(None, None), 0));
    let first = leader(labels, None, None);
    proof {
        lemma_taken(Some(first), None, 0);
        lemma_taken(Some(first), None, 1);
        assert(free(ranks, taken(Some(first), None), 0) || free(
            ranks,
            taken(Some(first), None),
            1,
        ));
    }
    let second = leader(labels, Some(first), None);
    proof {
        lemma_taken(Some(first), Some(second), 0);
        lemma_taken(Some(first), Some(second), 1);
        lemma_taken(Some(first), Some(second), 2);
        assert(free(ranks, taken(Some(first), Some(second)), 0) || free(
            ranks,
            taken(Some(first), Some(second)),
            1,
        ) || free(ranks, taken(Some(first), Some(second)), 2));
    }
    let third = leader(labels, Some(first), Some(second));
    let mut best: Vec<Litem> = Vec::new();
    best.push(copy_of(&labels[first]));
    best.push(copy_of(&labels[second]));
    best.push(copy_of(&labels[third]));
    assert(top_three(ranks, first as int, second as int, third as int));
    best
}

/// Copies a label.
fn copy_of(label: &Litem) -> (copy: Litem)
    ensures
        copy@ == label@,
{
    Litem { name: label.name.clone(), confidence: label.confidence.clone(), rank: label.rank }
}

/// The three best labels are determined by the ranks alone: no two
/// different choices of places meet [`top_three`].
pub proof fn law_top_three_is_unique(
    ranks: Seq<u32>,
    a: (int, int, int),
    b: (int, int, int),
)
    requires
        top_three(ranks, a.0, a.1, a.2),
        top_three(ranks, b.0, b.1, b.2),
    ensures
        a == b,
{
    let none = Seq::<int>::empty();
    if a.0 != b.0 {
        assert(outranks(ranks, a.0, b.0));
        assert(outranks(ranks, b.0, a.0));
    }
    let one = seq![a.0];
    assert(one[0] == a.0);
    if a.1 != b.1 {
        assert(outranks(ranks, a.1, b.1));
        assert(outranks(ranks, b.1, a.1));
    }
    let two = seq![a.0, a.1];
    assert(two[0] == a.0 && two[1] == a.1);
    if a.2 != b.2 {
        assert(outranks(ranks, a.2, b.2));
        assert(outranks(ranks, b.2, a.2));
    }
}

/// The item that is stored for a photo: the file name, which is the key,
/// then height, width and date, then name and confidence of each of the
/// three labels.
pub open spec fn photo_item(filename: Seq<char>, edata: EdataView, labels: Seq<LitemView>) -> Entries
    recommends
        labels.len() >= 3,
{
    let named = put(Seq::empty(), "filename"@, Attribute::S(filename));
    let high = put(named, "height"@, Attribute::S(edata.height));
    let wide = put(high, "width"@, Attribute::S(edata.width));
    let dated = put(wide, "created"@, Attribute::S(edata.created));
    let l1 = put(dated, "Label1"@, Attribute::S(labels[0].name));
    let v1 = put(l1, "Value1"@, Attribute::S(labels[0].confidence));
    let l2 = put(v1, "Label2"@, Attribute::S(labels[1].name));
    let v2 = put(l2, "Value2"@, Attribute::S(labels[1].confidence));
    let l3 = put(v2, "Label3"@, Attribute::S(labels[2].name));
    put(l3, "Value3"@, Attribute::S(labels[2].confidence))
}

/// The labels as mathematical values.
pub open spec fn labels_view(labels: Seq<Litem>) -> Seq<LitemView> {
    Seq::new(labels.len(), |i: int| labels[i]@)
}

/// Builds the item that is stored for a photo from its file name, its
/// size and date and its three best labels.
pub fn add_data_to_table(filename: &str, edata: Edata, labels: &Vec<Litem>) -> (item: Item)
    requires
        labels@.len() >= 3,
    ensures
        item@ == photo_item(filename@, edata@, labels_view(labels@)),
{
    Item::new().item("filename", AttributeValue::S(filename.to_owned())).item(
        "height",
        AttributeValue::S(edata.height),
    ).item("width", AttributeValue::S(edata.width)).item(
        "created",
        AttributeValue::S(edata.created),
    ).item("Label1", AttributeValue::S(labels[0].name.clone())).item(
        "Value1",
        AttributeValue::S(labels[0].confidence.clone()),
    ).item("Label2", AttributeValue::S(labels[1].name.clone())).item(
        "Value2",
        AttributeValue::S(labels[1].confidence.clone()),
    ).item("Label3", AttributeValue::S(labels[2].name.clone())).item(
        "Value3",
        AttributeValue::S(labels[2].confidence.clone()),
    )
}

} // verus!
