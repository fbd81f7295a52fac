use mbid_resolver::audio_data::{identity_from_tags, AudioFileData, AudioIDData, UnreadableMetadata};
use mbid_resolver::batch::{collect_resolved, BatchProgress, RunStatistics};
use mbid_resolver::mbid::Mbid;
use mbid_resolver::recording::{
    interpret_reply, lookup_url, parse_lookup_reply, LookupReply, ReplyMeaning, ResolveError,
};

fn s(x: &str) -> Option<String> {
    Some(x.to_string())
}

#[test]
fn mbid_parses_and_prints() {
    let id = Mbid::parse("b84dd2d1-2bf1-4fcc-aadc-6cc39c36ba35").unwrap();
    assert_eq!(id.value, 0xb84dd2d12bf14fccaadc6cc39c36ba35);
    assert_eq!(Mbid::from_u128(0xb84dd2d12bf14fccaadc6cc39c36ba35), id);
    assert_eq!(id.to_string(), "b84dd2d1-2bf1-4fcc-aadc-6cc39c36ba35");
    assert_eq!(Mbid::from_u128(1).to_string(), "00000000-0000-0000-0000-000000000001");
}

#[test]
fn mbid_rejects_malformed_text() {
    assert_eq!(Mbid::parse("not-an-id"), None);
    assert_eq!(Mbid::parse(""), None);
}

#[test]
fn identity_prefers_identifier_tag() {
    let r = identity_from_tags(s("5d93f99e-6663-4e77-97f1-0835f6b96b00"), s("A"), s("T"), None);
    assert_eq!(r, Ok(AudioIDData::Mbid(Mbid::parse("5d93f99e-6663-4e77-97f1-0835f6b96b00").unwrap())));
}

#[test]
fn identity_falls_back_to_description() {
    let r = identity_from_tags(s("garbage"), s("Ed Sheeran"), s("Perfect"), s("Divide"));
    assert_eq!(
        r,
        Ok(AudioIDData::AudioFileData(AudioFileData {
            artist: "Ed Sheeran".to_string(),
            title: "Perfect".to_string(),
            album: s("Divide"),
        }))
    );
}

#[test]
fn identity_drops_empty_album() {
    let r = identity_from_tags(None, s("Ed Sheeran"), s("Perfect"), s(""));
    match r {
        Ok(AudioIDData::AudioFileData(d)) => assert_eq!(d.album, None),
        _ => panic!("expected a description"),
    }
    let r = identity_from_tags(None, s("Ed Sheeran"), s("Perfect"), None);
    assert!(matches!(r, Ok(AudioIDData::AudioFileData(AudioFileData { album: None, .. }))));
}

#[test]
fn identity_needs_artist_and_title() {
    assert_eq!(identity_from_tags(None, None, s("Perfect"), None), Err(UnreadableMetadata));
    assert_eq!(identity_from_tags(None, s("Ed Sheeran"), None, None), Err(UnreadableMetadata));
    assert_eq!(identity_from_tags(None, s("   "), s("Perfect"), None), Err(UnreadableMetadata));
    assert_eq!(identity_from_tags(None, s("Ed Sheeran"), s("\t"), None), Err(UnreadableMetadata));
}

#[test]
fn lookup_url_encodes_pairs() {
    assert_eq!(
        lookup_url("Ed Sheeran", "Perfect").unwrap(),
        "https://api.listenbrainz.org/1/metadata/lookup/?artist_name=Ed+Sheeran&recording_name=Perfect"
    );
    assert_eq!(
        lookup_url("Florence + the Machine", "A&B").unwrap(),
        "https://api.listenbrainz.org/1/metadata/lookup/?artist_name=Florence+%2B+the+Machine&recording_name=A%26B"
    );
}

#[test]
fn reply_parsing() {
    assert_eq!(parse_lookup_reply("{}"), LookupReply::Object { empty: true, recording_mbid: None });
    assert_eq!(parse_lookup_reply("[1]"), LookupReply::NotObject);
    assert_eq!(parse_lookup_reply("nonsense"), LookupReply::NotObject);
    assert_eq!(
        parse_lookup_reply("{\"recording_mbid\":7}"),
        LookupReply::Object { empty: false, recording_mbid: None }
    );
    assert_eq!(
        parse_lookup_reply("{\"recording_mbid\":\"abc\"}"),
        LookupReply::Object { empty: false, recording_mbid: s("abc") }
    );
}

#[test]
fn reply_meanings() {
    assert_eq!(interpret_reply(&LookupReply::NotObject), ReplyMeaning::Malformed);
    assert_eq!(interpret_reply(&parse_lookup_reply("{}")), ReplyMeaning::Empty);
    assert_eq!(interpret_reply(&parse_lookup_reply("{\"a\":1}")), ReplyMeaning::Malformed);
    let id = Mbid::parse("589b2eff-e541-475b-bbe7-ca778238e711").unwrap();
    assert_eq!(
        interpret_reply(&parse_lookup_reply("{\"recording_mbid\":\"589b2eff-e541-475b-bbe7-ca778238e711\"}")),
        ReplyMeaning::Found(id)
    );
}

#[test]
fn batch_drops_exactly_the_failed_track() {
    let a = Mbid::from_u128(1);
    let b = Mbid::from_u128(2);
    let outcomes = vec![
        Ok(a),
        Err(ResolveError::Unresolved { artist: "Ed Sheeran".to_string(), title: "Asdjkhfgds".to_string() }),
        Ok(b),
    ];
    assert_eq!(collect_resolved(outcomes), vec![a, b]);
    assert_eq!(collect_resolved(vec![]), vec![]);
    assert_eq!(collect_resolved(vec![Err(ResolveError::RemoteService), Err(ResolveError::Malformed)]), vec![]);
}

#[test]
fn progress_counts_each_outcome() {
    let mut p = BatchProgress::new(2);
    assert!(!p.is_done());
    p.record();
    assert_eq!(p.completed, 1);
    p.record();
    assert!(p.is_done());
}

#[test]
fn statistics_must_nest() {
    assert_eq!(
        RunStatistics::new(4, 3, 2),
        Some(RunStatistics { total: 4, readable: 3, resolved: 2 })
    );
    assert_eq!(RunStatistics::new(4, 5, 2), None);
    assert_eq!(RunStatistics::new(4, 3, 4), None);
    assert_eq!(RunStatistics::new(0, 0, 0), Some(RunStatistics { total: 0, readable: 0, resolved: 0 }));
}
