use vstd::prelude::*;
use vstd::string::*;
use crate::streams::HelixStream;

verus! {

/// A label of a datapoint: a name and a value.
#[derive(Debug, Clone)]
pub struct Label {
    pub name: String,
    pub value: String,
}

/// One timestamped, labelled observation for the metrics store.
#[derive(Debug, Clone)]
pub struct Datapoint {
    /// Microseconds since the Unix epoch.
    pub timestamp: i64,
    pub class_name: String,
    pub labels: Vec<Label>,
    pub value: i64,
}

/// The labels as pairs of texts, in order.
pub open spec fn labels_view(v: Seq<Label>) -> Seq<(Seq<char>, Seq<char>)> {
    v.map_values(|l: Label| (l.name@, l.value@))
}

/// The label names every datapoint carries, in order.
pub open spec fn label_names() -> Seq<Seq<char>> {
    seq!["event_name"@, "stream_id"@, "game_id"@, "game_name"@, "user_id"@, "user_name"@]
}

/// The labels of the datapoint of a stream.
pub open spec fn label_schema(record: HelixStream, game_name: Seq<char>, event_name: Seq<char>) -> Seq<
    (Seq<char>, Seq<char>),
> {
    seq![
        ("event_name"@, event_name),
        ("stream_id"@, record.id@),
        ("game_id"@, record.game_id@),
        ("game_name"@, game_name),
        ("user_id"@, record.user_id@),
        ("user_name"@, record.user_login@),
    ]
}

/// The class name of the viewer datapoints under a prefix.
pub open spec fn class_name_spec(prefix: Seq<char>) -> Seq<char> {
    prefix + ".viewers"@
}

/// Whether `d` is the datapoint of `record` in category `game_name`.
pub open spec fn is_datapoint_of(
    d: Datapoint,
    record: HelixStream,
    game_name: Seq<char>,
    timestamp: i64,
    event_name: Seq<char>,
    prefix: Seq<char>,
) -> bool {
    &&& d.timestamp == timestamp
    &&& d.class_name@ == class_name_spec(prefix)
    &&& labels_view(d.labels@) == label_schema(record, game_name, event_name)
    &&& d.value == record.viewer_count as i64
}

/// The class name of the viewer datapoints under `prefix`.
pub fn class_name(prefix: &String) -> (r: String)
    ensures
        r@ == class_name_spec(prefix@),
{
    let mut name = prefix.clone();
    name.append(".viewers");
    name
}

fn label(name: &str, value: &String) -> (r: Label)
    ensures
        r.name@ == name@,
        r.value@ == value@,
{
    Label { name: String::from_str(name), value: value.clone() }
}

/// The datapoint of a stream: its viewer count, labelled with the event, the
/// stream, its category and its broadcaster.
pub fn assemble(
    record: &HelixStream,
    game_name: &String,
    timestamp: i64,
    event_name: &String,
    prefix: &String,
) -> (r: Datapoint)
    ensures
        is_datapoint_of(r, *record, game_name@, timestamp, event_name@, prefix@),
{
    let mut labels: Vec<Label> = Vec::new();
    labels.push(label("event_name", event_name));
    labels.push(label("stream_id", &record.id));
    labels.push(label("game_id", &record.game_id));
    labels.push(label("game_name", game_name));
    labels.push(label("user_id", &record.user_id));
    labels.push(label("user_name", &record.user_login));
    assert(labels_view(labels@) =~= label_schema(*record, game_name@, event_name@));
    Datapoint {
        timestamp,
        class_name: class_name(prefix),
        labels,
        value: record.viewer_count as i64,
    }
}

/// The datapoints of the head of a page: one per record that has a resolved
/// category name, `names[i]` naming the category of `records[i]`.
pub fn assemble_page(
    records: &Vec<HelixStream>,
    names: &Vec<String>,
    timestamp: i64,
    event_name: &String,
    prefix: &String,
) -> (r: Vec<Datapoint>)
    ensures
        r@.len() == if records@.len() <= names@.len() { records@.len() } else { names@.len() },
        forall|i: int|
            0 <= i < r@.len() ==> is_datapoint_of(
                #[trigger] r@[i],
                records@[i],
                names@[i]@,
                timestamp,
                event_name@,
                prefix@,
            ),
{
    let mut out: Vec<Datapoint> = Vec::new();
    let mut i: usize = 0;
    while i < records.len() && i < names.len()
        invariant
            i <= records@.len(),
            i <= names@.len(),
            out@.len() == i,
            forall|j: int|
                0 <= j < i ==> is_datapoint_of(
                    #[trigger] out@[j],
                    records@[j],
                    names@[j]@,
                    timestamp,
                    event_name@,
                    prefix@,
                ),
        decreases records.len() - i,
    {
        out.push(assemble(&records[i], &names[i], timestamp, event_name, prefix));
        i = i + 1;
    }
    out
}

/// Every datapoint carries exactly the six fixed labels, in a fixed order,
/// each with the value taken from its stream, category and event.
pub proof fn lemma_labels_fixed(
    d: Datapoint,
    record: HelixStream,
    game_name: Seq<char>,
    timestamp: i64,
    event_name: Seq<char>,
    prefix: Seq<char>,
)
    requires
        is_datapoint_of(d, record, game_name, timestamp, event_name, prefix),
    ensures
        d.labels@.len() == 6,
        forall|i: int| 0 <= i < 6 ==> #[trigger] d.labels@[i].name@ == label_names()[i],
        d.labels@[0].value@ == event_name,
        d.labels@[1].value@ == record.id@,
        d.labels@[2].value@ == record.game_id@,
        d.labels@[3].value@ == game_name,
        d.labels@[4].value@ == record.user_id@,
        d.labels@[5].value@ == record.user_login@,
{
    let v = labels_view(d.labels@);
    assert(v.len() == 6);
    assert forall|i: int| 0 <= i < 6 implies #[trigger] d.labels@[i].name@ == label_names()[i] by {
        assert(v[i] == (d.labels@[i].name@, d.labels@[i].value@));
    }
    assert(v[0].1 == d.labels@[0].value@);
    assert(v[1].1 == d.labels@[1].value@);
    assert(v[2].1 == d.labels@[2].value@);
    assert(v[3].1 == d.labels@[3].value@);
    assert(v[4].1 == d.labels@[4].value@);
    assert(v[5].1 == d.labels@[5].value@);
}

} // verus!
