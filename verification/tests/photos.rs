use cloud_waiter::photos::{add_data_to_table, get_exif_data, get_label_data, Edata, Litem};
use cloud_waiter::values::{AttributeValue, Item};

fn field(tag: &str, value: &str) -> (String, String) {
    (tag.to_string(), value.to_string())
}

fn label(name: &str, confidence: &str, rank: u32) -> Litem {
    Litem { name: name.to_string(), confidence: confidence.to_string(), rank }
}

fn names(labels: &Vec<Litem>) -> Vec<&str> {
    labels.iter().map(|l| l.name.as_str()).collect()
}

#[test]
fn exif_data_of_no_fields_is_empty() {
    assert_eq!(
        get_exif_data(&vec![]),
        Edata { height: String::new(), width: String::new(), created: String::new() }
    );
}

#[test]
fn exif_data_picks_size_and_date() {
    let fields = vec![
        field("Make", "Canon"),
        field("ImageWidth", "4000 pixels"),
        field("ImageLength", "3000 pixels"),
        field("DateTimeOriginal", "2021-03-02 10:11:12"),
        field("Model", "EOS"),
    ];
    assert_eq!(
        get_exif_data(&fields),
        Edata {
            height: "4000 pixels".to_string(),
            width: "3000 pixels".to_string(),
            created: "2021-03-02 10:11:12".to_string(),
        }
    );
}

#[test]
fn exif_data_appends_repeated_fields() {
    let fields = vec![
        field("ImageWidth", "1"),
        field("DateTimeOriginal", "a"),
        field("ImageWidth", "2"),
        field("DateTimeOriginal", "b"),
    ];
    let edata = get_exif_data(&fields);
    assert_eq!(edata.height, "12");
    assert_eq!(edata.width, "");
    assert_eq!(edata.created, "ab");
}

#[test]
fn exif_tags_are_compared_exactly() {
    let fields = vec![field("imagewidth", "1"), field("ImageWidth ", "2"), field("", "3")];
    let edata = get_exif_data(&fields);
    assert_eq!(edata.height, "");
}

#[test]
fn three_best_labels_by_falling_rank() {
    let labels = vec![
        label("Tree", "55.5", 555),
        label("Dog", "99.1", 991),
        label("Grass", "70", 700),
        label("Sky", "80.25", 802),
        label("Ball", "12", 120),
    ];
    let best = get_label_data(&labels);
    assert_eq!(names(&best), vec!["Dog", "Sky", "Grass"]);
    assert_eq!(best[0], label("Dog", "99.1", 991));
}

#[test]
fn equal_ranks_keep_their_order() {
    let labels = vec![
        label("a", "1", 10),
        label("b", "2", 20),
        label("c", "2", 20),
        label("d", "2", 20),
        label("e", "1", 10),
    ];
    assert_eq!(names(&get_label_data(&labels)), vec!["b", "c", "d"]);
    let labels = vec![label("a", "1", 7), label("b", "1", 7), label("c", "1", 7), label("d", "1", 7)];
    assert_eq!(names(&get_label_data(&labels)), vec!["a", "b", "c"]);
}

#[test]
fn exactly_three_labels_are_ordered() {
    let labels = vec![label("low", "1", 1), label("high", "3", 3), label("mid", "2", 2)];
    assert_eq!(names(&get_label_data(&labels)), vec!["high", "mid", "low"]);
}

#[test]
fn best_label_at_the_end() {
    let labels = vec![
        label("a", "0", 0),
        label("b", "0", 0),
        label("c", "0", 0),
        label("d", "max", u32::MAX),
    ];
    assert_eq!(names(&get_label_data(&labels)), vec!["d", "a", "b"]);
}

#[test]
fn photo_item_holds_ten_attributes() {
    let edata = Edata {
        height: "3000".to_string(),
        width: "4000".to_string(),
        created: "2021".to_string(),
    };
    let labels = vec![label("Dog", "99.1", 991), label("Sky", "80.25", 802), label("Grass", "70", 700)];
    let s = |text: &str| AttributeValue::S(text.to_string());
    assert_eq!(
        add_data_to_table("dog.jpg", edata, &labels),
        Item {
            entries: vec![
                ("filename".to_string(), s("dog.jpg")),
                ("height".to_string(), s("3000")),
                ("width".to_string(), s("4000")),
                ("created".to_string(), s("2021")),
                ("Label1".to_string(), s("Dog")),
                ("Value1".to_string(), s("99.1")),
                ("Label2".to_string(), s("Sky")),
                ("Value2".to_string(), s("80.25")),
                ("Label3".to_string(), s("Grass")),
                ("Value3".to_string(), s("70")),
            ]
        }
    );
}
