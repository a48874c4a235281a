//! Selection of the best video and audio representation of an
//! adaptive-streaming manifest.

use crate::integer::{lemma_decimal_parses, parse_int_spec, Integer};
use crate::text::{decimal, same_text, text_of};
use vstd::prelude::*;
use xml::reader::{EventReader, XmlEvent};

verus! {

/// One attribute of an element: its local name and its value.
#[derive(Debug, Clone, PartialEq, Eq)]
pub struct XmlAttribute {
    pub name: String,
    pub value: String,
}

/// What the manifest scan reads of one parsing event.
#[derive(Debug, Clone, PartialEq, Eq)]
pub enum XmlStep {
    /// An element opens.
    Start { name: String, attributes: Vec<XmlAttribute> },
    /// Character data that is not only whitespace.
    Text(String),
    /// Any other event.
    Other,
    /// The document is malformed from here on.
    Failed,
}

/// An attribute as values.
pub struct AttributeModel {
    pub name: Seq<char>,
    pub value: Seq<char>,
}

/// An event as values.
pub enum StepModel {
    Start { name: Seq<char>, attributes: Seq<AttributeModel> },
    Text(Seq<char>),
    Other,
    Failed,
}

impl View for XmlAttribute {
    type V = AttributeModel;

    open spec fn view(&self) -> AttributeModel {
        AttributeModel { name: self.name@, value: self.value@ }
    }
}

impl View for XmlStep {
    type V = StepModel;

    open spec fn view(&self) -> StepModel {
        match self {
            XmlStep::Start { name, attributes } => StepModel::Start {
                name: name@,
                attributes: attributes@.map_values(|a: XmlAttribute| a@),
            },
            XmlStep::Text(content) => StepModel::Text(content@),
            XmlStep::Other => StepModel::Other,
            XmlStep::Failed => StepModel::Failed,
        }
    }
}

/// The models of a sequence of steps.
pub open spec fn steps_model(steps: Seq<XmlStep>) -> Seq<StepModel> {
    steps.map_values(|s: XmlStep| s@)
}

/// The events that the XML pull parser reports for a document, in order, each
/// reduced to what the scan reads of it. The sequence ends with the event that
/// closes the document or with the first error.
pub uninterp spec fn xml_steps(document: Seq<char>) -> Seq<StepModel>;

/// Runs `xml::reader::EventReader::from_str` on the document and collects the
/// events of its iterator (`Events::next`), which stops after the end of the
/// document or the first error. An opening element keeps the local names and
/// values; character data keeps its text. The contract only names the result.
#[verifier::external_body]
fn read_xml_steps(document: &str) -> (steps: Vec<XmlStep>)
    ensures
        steps_model(steps@) == xml_steps(document@),
{
    EventReader::from_str(document).into_iter().map(|event| match event {
        Ok(XmlEvent::StartElement { name, attributes, .. }) => XmlStep::Start {
            name: name.local_name,
            attributes: attributes
                .into_iter()
                .map(|a| XmlAttribute { name: a.name.local_name, value: a.value })
                .collect(),
        },
        Ok(XmlEvent::Characters(content)) => XmlStep::Text(content),
        Ok(_) => XmlStep::Other,
        Err(_) => XmlStep::Failed,
    }).collect()
}

/// The state of the scan after some events.
pub struct ScanState {
    /// The adaptation set that is open holds video.
    pub is_video: bool,
    /// The bandwidth of the last representation seen.
    pub current: int,
    /// The largest bandwidth seen among video representations.
    pub max_video: int,
    /// The largest bandwidth seen among audio representations.
    pub max_audio: int,
    /// The text kept for the best video representation.
    pub video: Option<Seq<char>>,
    /// The text kept for the best audio representation.
    pub audio: Option<Seq<char>>,
}

/// The state before the first event.
pub open spec fn initial_state() -> ScanState {
    ScanState {
        is_video: false,
        current: 0,
        max_video: 0,
        max_audio: 0,
        video: None,
        audio: None,
    }
}

/// The value of the first attribute whose local name is `name`.
pub open spec fn attribute_value(attributes: Seq<AttributeModel>, name: Seq<char>) -> Option<
    Seq<char>,
>
    decreases attributes.len(),
{
    if attributes.len() == 0 {
        None
    } else if attributes[0].name == name {
        Some(attributes[0].value)
    } else {
        attribute_value(attributes.skip(1), name)
    }
}

/// The bandwidth that a representation declares: its `bandwidth` attribute
/// read as a whole number of any size, and 0 where it is missing or does not
/// read.
pub open spec fn declared_bandwidth(attributes: Seq<AttributeModel>) -> int {
    match attribute_value(attributes, "bandwidth"@) {
        Some(value) => match parse_int_spec(value) {
            Some(n) => n,
            None => 0,
        },
        None => 0,
    }
}

/// The state after an adaptation set with these attributes has opened.
pub open spec fn enter_adaptation_set(
    state: ScanState,
    attributes: Seq<AttributeModel>,
) -> ScanState {
    match attribute_value(attributes, "contentType"@) {
        Some(kind) => if kind == "video"@ {
            ScanState { is_video: true, ..state }
        } else if kind == "audio"@ {
            ScanState { is_video: false, ..state }
        } else {
            state
        },
        None => state,
    }
}

/// The state after a representation of the given bandwidth has opened.
pub open spec fn enter_representation(state: ScanState, bandwidth: int) -> ScanState {
    if state.is_video && bandwidth > state.max_video {
        ScanState { current: bandwidth, max_video: bandwidth, ..state }
    } else if !state.is_video && bandwidth > state.max_audio {
        ScanState { current: bandwidth, max_audio: bandwidth, ..state }
    } else {
        ScanState { current: bandwidth, ..state }
    }
}

/// The state after character data: the text is kept for the open kind where
/// the last representation has that kind's largest bandwidth so far.
pub open spec fn read_text(state: ScanState, content: Seq<char>) -> ScanState {
    if state.is_video && state.current == state.max_video {
        ScanState { video: Some(content), ..state }
    } else if !state.is_video && state.current == state.max_audio {
        ScanState { audio: Some(content), ..state }
    } else {
        state
    }
}

/// The state after one event.
pub open spec fn advance(state: ScanState, step: StepModel) -> ScanState {
    match step {
        StepModel::Start { name, attributes } => if name == "AdaptationSet"@ {
            enter_adaptation_set(state, attributes)
        } else if name == "Representation"@ {
            enter_representation(state, declared_bandwidth(attributes))
        } else {
            state
        },
        StepModel::Text(content) => read_text(state, content),
        _ => state,
    }
}

/// The state after the events of `steps` that come before its first failure.
pub open spec fn scan_from(state: ScanState, steps: Seq<StepModel>) -> ScanState
    decreases steps.len(),
{
    if steps.len() == 0 || steps[0] is Failed {
        state
    } else {
        scan_from(advance(state, steps[0]), steps.skip(1))
    }
}

/// The texts selected from a whole sequence of events: video, then audio.
pub open spec fn best_of(steps: Seq<StepModel>) -> (Option<Seq<char>>, Option<Seq<char>>) {
    let end = scan_from(initial_state(), steps);
    (end.video, end.audio)
}

fn find_attribute<'a>(attributes: &'a Vec<XmlAttribute>, name: &str) -> (found: Option<&'a String>)
    ensures
        match found {
            Some(value) => Some(value@),
            None => None,
        } == attribute_value(attributes@.map_values(|a: XmlAttribute| a@), name@),
{
    let ghost all = attributes@.map_values(|a: XmlAttribute| a@);
    let mut i: usize = 0;
    assert(all.skip(0) =~= all);
    while i < attributes.len()
        invariant
            i <= attributes.len(),
            all == attributes@.map_values(|a: XmlAttribute| a@),
            attribute_value(all, name@) == attribute_value(all.skip(i as int), name@),
        decreases attributes.len() - i,
    {
        assert(all.skip(i as int)[0] == attributes@[i as int]@);
        if same_text(attributes[i].name.as_str(), name) {
            return Some(&attributes[i].value);
        }
        assert(all.skip(i as int).skip(1) =~= all.skip(i + 1));
        i = i + 1;
    }
    None
}

/// Selects, from the events of a manifest, the text that follows the video
/// representation of largest bandwidth and the one that follows the audio
/// representation of largest bandwidth. The scan stops at the first failure
/// and keeps what it has selected until then.
pub fn select_best(steps: &Vec<XmlStep>) -> (best: (Option<String>, Option<String>))
    ensures
        (text_of(best.0), text_of(best.1)) == best_of(steps_model(steps@)),
{
    let ghost all = steps_model(steps@);
    let mut is_video: bool = false;
    let mut current = Integer::zero();
    let mut max_video = Integer::zero();
    let mut max_audio = Integer::zero();
    let mut video: Option<String> = None;
    let mut audio: Option<String> = None;
    let mut i: usize = 0;
    assert(all.skip(0) =~= all);
    while i < steps.len()
        invariant
            i <= steps.len(),
            all == steps_model(steps@),
            scan_from(initial_state(), all) == scan_from(
                ScanState {
                    is_video,
                    current: current@,
                    max_video: max_video@,
                    max_audio: max_audio@,
                    video: text_of(video),
                    audio: text_of(audio),
                },
                all.skip(i as int),
            ),
        decreases steps.len() - i,
    {
        assert(all.skip(i as int)[0] == steps@[i as int]@);
        assert(all.skip(i as int).skip(1) =~= all.skip(i + 1));
        match &steps[i] {
            XmlStep::Start { name, attributes } => {
                if same_text(name.as_str(), "AdaptationSet") {
                    match find_attribute(attributes, "contentType") {
                        Some(kind) => {
                            if same_text(kind.as_str(), "video") {
                                is_video = true;
                            } else if same_text(kind.as_str(), "audio") {
                                is_video = false;
                            }
                        },
                        None => {},
                    }
                } else if same_text(name.as_str(), "Representation") {
                    current = match find_attribute(attributes, "bandwidth") {
                        Some(value) => match Integer::parse(value.as_str()) {
                            Some(n) => n,
                            None => Integer::zero(),
                        },
                        None => Integer::zero(),
                    };
                    if is_video && current.exceeds(&max_video) {
                        max_video = current.duplicate();
                    } else if !is_video && current.exceeds(&max_audio) {
                        max_audio = current.duplicate();
                    }
                }
            },
            XmlStep::Text(content) => {
                if is_video && current.equals(&max_video) {
                    video = Some(content.clone());
                } else if !is_video && current.equals(&max_audio) {
                    audio = Some(content.clone());
                }
            },
            XmlStep::Other => {},
            XmlStep::Failed => {
                return (video, audio);
            },
        }
        i = i + 1;
    }
    (video, audio)
}

/// Parses a manifest document and selects its best video and audio
/// representation: the pair is `(video, audio)`, each the text that the
/// document gives for that representation, or `None` where it gives none. A
/// document that is malformed yields what was selected before the error.
pub fn parse_mpd(document: &str) -> (best: (Option<String>, Option<String>))
    ensures
        (text_of(best.0), text_of(best.1)) == best_of(xml_steps(document@)),
{
    let steps = read_xml_steps(document);
    select_best(&steps)
}

/// One representation of a manifest: its kind, its bandwidth and the text
/// that the manifest gives for it.
pub struct Representation {
    pub video: bool,
    pub bandwidth: nat,
    pub url: Seq<char>,
}

/// The events of one listed representation: its adaptation set opens with
/// the kind, the representation opens with the bandwidth, and the text
/// follows.
pub open spec fn listed(representation: Representation) -> Seq<StepModel> {
    seq![
        StepModel::Start {
            name: "AdaptationSet"@,
            attributes: seq![
                AttributeModel {
                    name: "contentType"@,
                    value: if representation.video {
                        "video"@
                    } else {
                        "audio"@
                    },
                },
            ],
        },
        StepModel::Start {
            name: "Representation"@,
            attributes: seq![
                AttributeModel { name: "bandwidth"@, value: decimal(representation.bandwidth) },
            ],
        },
        StepModel::Text(representation.url),
    ]
}

/// The events of a manifest that lists these representations in order.
pub open spec fn listing(representations: Seq<Representation>) -> Seq<StepModel>
    decreases representations.len(),
{
    if representations.len() == 0 {
        Seq::empty()
    } else {
        listing(representations.drop_last()) + listed(representations.last())
    }
}

/// The index of the representation that is selected for a kind: the last
/// of those of the kind that have the largest bandwidth of the kind. `None`
/// where no representation is of the kind.
pub open spec fn selected(representations: Seq<Representation>, video: bool) -> Option<int>
    decreases representations.len(),
{
    if representations.len() == 0 {
        None
    } else {
        let last = representations.len() - 1;
        match selected(representations.drop_last(), video) {
            None => if representations[last].video == video {
                Some(last)
            } else {
                None
            },
            Some(k) => if representations[last].video == video && representations[last].bandwidth
                >= representations[k].bandwidth {
                Some(last)
            } else {
                Some(k)
            },
        }
    }
}

/// The text of the representation that is selected for a kind.
pub open spec fn selected_url(representations: Seq<Representation>, video: bool) -> Option<
    Seq<char>,
> {
    match selected(representations, video) {
        Some(k) => Some(representations[k].url),
        None => None,
    }
}

/// The largest bandwidth of a kind; 0 where no representation is of the kind.
pub open spec fn largest_bandwidth(representations: Seq<Representation>, video: bool) -> nat {
    match selected(representations, video) {
        Some(k) => representations[k].bandwidth,
        None => 0,
    }
}

/// What `selected` selects is of the kind, no representation of the kind
/// has a larger bandwidth, and none after it has the same.
pub proof fn lemma_selected_is_last_largest(representations: Seq<Representation>, video: bool)
    ensures
        match selected(representations, video) {
            Some(k) => {
                &&& 0 <= k < representations.len()
                &&& representations[k].video == video
                &&& forall|j: int|
                    0 <= j < representations.len() && (#[trigger] representations[j]).video
                        == video ==> representations[j].bandwidth <= representations[k].bandwidth
                &&& forall|j: int|
                    k < j < representations.len() && (#[trigger] representations[j]).video
                        == video ==> representations[j].bandwidth < representations[k].bandwidth
            },
            None => forall|j: int|
                0 <= j < representations.len() ==> (#[trigger] representations[j]).video != video,
        },
    decreases representations.len(),
{
    if representations.len() > 0 {
        let front = representations.drop_last();
        lemma_selected_is_last_largest(front, video);
        assert forall|j: int| 0 <= j < front.len() implies front[j] == representations[j] by {}
        match selected(front, video) {
            Some(k) => {
                assert(front[k] == representations[k]);
                assert forall|j: int|
                    0 <= j < representations.len() - 1 && (#[trigger] representations[j]).video
                        == video implies representations[j].bandwidth
                    <= representations[k].bandwidth by {
                    assert(front[j] == representations[j]);
                }
                assert forall|j: int|
                    k < j < representations.len() - 1 && (#[trigger] representations[j]).video
                        == video implies representations[j].bandwidth
                    < representations[k].bandwidth by {
                    assert(front[j] == representations[j]);
                }
            },
            None => {
                assert forall|j: int| 0 <= j < representations.len() - 1 implies (
                #[trigger] representations[j]).video != video by {
                    assert(front[j] == representations[j]);
                }
            },
        }
    }
}

/// A scan over two sequences of events, the first without a failure, is the
/// scan over the second from where the scan over the first ends.
pub proof fn lemma_scan_continues(state: ScanState, first: Seq<StepModel>, second: Seq<StepModel>)
    requires
        forall|i: int| 0 <= i < first.len() ==> !(#[trigger] first[i] is Failed),
    ensures
        scan_from(state, first + second) == scan_from(scan_from(state, first), second),
    decreases first.len(),
{
    if first.len() == 0 {
        assert(first + second =~= second);
    } else {
        let all = first + second;
        assert(all[0] == first[0]);
        assert(!(first[0] is Failed));
        assert(all.skip(1) =~= first.skip(1) + second);
        assert forall|i: int| 0 <= i < first.skip(1).len() implies !(#[trigger] first.skip(
            1,
        )[i] is Failed) by {
            assert(first.skip(1)[i] == first[i + 1]);
        }
        lemma_scan_continues(advance(state, first[0]), first.skip(1), second);
    }
}

/// A listing holds no failure.
pub proof fn lemma_listing_has_no_failure(representations: Seq<Representation>)
    ensures
        forall|i: int|
            0 <= i < listing(representations).len() ==> !(#[trigger] listing(
                representations,
            )[i] is Failed),
    decreases representations.len(),
{
    if representations.len() > 0 {
        lemma_listing_has_no_failure(representations.drop_last());
        let front = listing(representations.drop_last());
        let tail = listed(representations.last());
        assert forall|i: int| 0 <= i < listing(representations).len() implies !(
        #[trigger] listing(representations)[i] is Failed) by {
            if i < front.len() {
                assert(listing(representations)[i] == front[i]);
            } else {
                assert(listing(representations)[i] == tail[i - front.len()]);
            }
        }
    }
}

/// The state of the scan after one listed representation.
proof fn lemma_scan_of_listed(state: ScanState, representation: Representation)
    ensures
        ({
            let end = scan_from(state, listed(representation));
            let bandwidth = representation.bandwidth as int;
            &&& representation.video ==> {
                &&& end.max_audio == state.max_audio
                &&& end.audio == state.audio
                &&& end.max_video == if bandwidth > state.max_video {
                    bandwidth
                } else {
                    state.max_video
                }
                &&& end.video == if bandwidth >= state.max_video {
                    Some(representation.url)
                } else {
                    state.video
                }
            }
            &&& !representation.video ==> {
                &&& end.max_video == state.max_video
                &&& end.video == state.video
                &&& end.max_audio == if bandwidth > state.max_audio {
                    bandwidth
                } else {
                    state.max_audio
                }
                &&& end.audio == if bandwidth >= state.max_audio {
                    Some(representation.url)
                } else {
                    state.audio
                }
            }
        }),
{
    reveal_strlit("AdaptationSet");
    reveal_strlit("Representation");
    reveal_strlit("video");
    reveal_strlit("audio");
    reveal_strlit("contentType");
    reveal_strlit("bandwidth");
    lemma_decimal_parses(representation.bandwidth);
    let steps = listed(representation);
    let kind = steps[0]->Start_attributes;
    let rate = steps[1]->Start_attributes;
    assert("AdaptationSet"@ != "Representation"@) by {
        assert("AdaptationSet"@.len() == 13);
        assert("Representation"@.len() == 14);
    }
    assert("audio"@ != "video"@) by {
        assert("audio"@[0] == 'a');
        assert("video"@[0] == 'v');
    }
    assert(attribute_value(kind, "contentType"@) == Some(kind[0].value));
    assert(attribute_value(rate, "bandwidth"@) == Some(decimal(representation.bandwidth)));
    assert(declared_bandwidth(rate) == representation.bandwidth as int);
    let one = advance(state, steps[0]);
    assert(one == ScanState { is_video: representation.video, ..state });
    let two = advance(one, steps[1]);
    assert(two == enter_representation(one, representation.bandwidth as int));
    let three = advance(two, steps[2]);
    assert(three == read_text(two, representation.url));
    assert(steps.skip(1)[0] == steps[1]);
    assert(steps.skip(1).skip(1)[0] == steps[2]);
    assert(steps.skip(1).skip(1).skip(1) =~= Seq::<StepModel>::empty());
    assert(scan_from(state, steps) == scan_from(one, steps.skip(1)));
    assert(scan_from(one, steps.skip(1)) == scan_from(two, steps.skip(1).skip(1)));
    assert(scan_from(two, steps.skip(1).skip(1)) == scan_from(
        three,
        steps.skip(1).skip(1).skip(1),
    ));
}

/// The state of the scan after a listing: it has tracked the largest
/// bandwidth of each kind and kept the text of what is selected.
proof fn lemma_state_after_listing(representations: Seq<Representation>)
    ensures
        ({
            let end = scan_from(initial_state(), listing(representations));
            &&& end.max_video == largest_bandwidth(representations, true)
            &&& end.max_audio == largest_bandwidth(representations, false)
            &&& end.video == selected_url(representations, true)
            &&& end.audio == selected_url(representations, false)
        }),
    decreases representations.len(),
{
    if representations.len() > 0 {
        let front = representations.drop_last();
        let last = representations.last();
        lemma_state_after_listing(front);
        lemma_listing_has_no_failure(front);
        lemma_selected_is_last_largest(front, true);
        lemma_selected_is_last_largest(front, false);
        let middle = scan_from(initial_state(), listing(front));
        lemma_scan_continues(initial_state(), listing(front), listed(last));
        lemma_scan_of_listed(middle, last);
        match selected(front, true) {
            Some(k) => {
                assert(front[k] == representations[k]);
            },
            None => {},
        }
        match selected(front, false) {
            Some(k) => {
                assert(front[k] == representations[k]);
            },
            None => {},
        }
    }
}

/// From a manifest that lists representations, each with its kind, its
/// bandwidth and its text, the scan selects for each kind the text of the
/// representation of the largest bandwidth, and of the last of them where
/// several have it.
pub proof fn lemma_listing_selects_largest_bandwidth(representations: Seq<Representation>)
    ensures
        best_of(listing(representations)) == (
            selected_url(representations, true),
            selected_url(representations, false),
        ),
{
    lemma_state_after_listing(representations);
}

} // verus!
