use miu::parse::Results;
use miu::{
    Challenge, ChallengeLevel, MIUError, MidWeekly, ModValue, NameLang, PhysicsMod, ScoreBucket,
    UtcTime, Weekly,
};

fn json_error() -> serde_json::Error {
    serde_json::from_str::<serde_json::Value>("{").unwrap_err()
}

fn at(seconds: i64) -> UtcTime {
    UtcTime::new(seconds, 0).unwrap()
}

fn mid(object_id: &str, bucket: &str) -> MidWeekly {
    MidWeekly {
        object_id: object_id.to_string(),
        level_id: "CHALLENGE_DATA".to_string(),
        created_at: at(1_700_000_000),
        updated_at: at(1_700_000_100),
        score_buckets: bucket.to_string(),
    }
}

fn envelope(results: Option<Vec<MidWeekly>>) -> Result<Results<MidWeekly>, serde_json::Error> {
    Ok(Results { results, code: None, error: None })
}

fn challenge(id: &str, level_ids: &[&str]) -> Challenge {
    Challenge {
        chapter_set: "Chapter 1".to_string(),
        challenge_id: id.to_string(),
        levels: level_ids
            .iter()
            .map(|l| ChallengeLevel {
                name: format!("Level {}", l),
                id: l.to_string(),
                physicsmod: vec![PhysicsMod::Gravity(0.5f32.to_bits()), PhysicsMod::AirJumps(2)],
            })
            .collect(),
        name: vec![
            ("en".to_string(), "Low Gravity".to_string()),
            ("zh-CN".to_string(), "低重力".to_string()),
        ],
        start_date: at(1_700_000_000),
        end_date: at(1_700_604_800),
    }
}

#[test]
fn empty_results_list_is_an_error() {
    let r = Weekly::select_result(envelope(Some(vec![])));
    assert!(matches!(r, Err(MIUError::EmptyResults)));
}

#[test]
fn missing_results_is_an_error() {
    let r = Weekly::select_result(envelope(None));
    assert!(matches!(r, Err(MIUError::EmptyResults)));
}

#[test]
fn malformed_envelope_is_an_outer_error() {
    let r = Weekly::select_result(Err(json_error()));
    assert!(matches!(r, Err(MIUError::FailedToParseWeekly(_))));
}

#[test]
fn first_of_three_results_is_selected() {
    let r = Weekly::select_result(envelope(Some(vec![mid("a", "1"), mid("b", "2"), mid("c", "3")])));
    let m = r.unwrap();
    assert_eq!(m.object_id, "a");
    assert_eq!(m.score_buckets, "1");
}

#[test]
fn nested_bucket_failure_is_a_nested_error() {
    let m = Weekly::select_result(envelope(Some(vec![mid("a", "not json")]))).unwrap();
    let r = Weekly::assemble(m, Err(json_error()));
    assert!(matches!(r, Err(MIUError::FailedToParseScorebucket(_))));
}

#[test]
fn assembled_weekly_keeps_both_challenges() {
    let m = Weekly::select_result(envelope(Some(vec![mid("obj", "{}")]))).unwrap();
    let bucket = ScoreBucket {
        current: challenge("cur", &["SP_1", "SP_2"]),
        previous: challenge("prev", &["SP_9"]),
        sheet_id: 7,
        cur_id: 3,
        level: "x".to_string(),
    };
    let w = Weekly::assemble(m, Ok(bucket)).unwrap();
    assert_eq!(w.object_id, "obj");
    assert_eq!(w.level_id, "CHALLENGE_DATA");
    assert_eq!(w.created_at, at(1_700_000_000));
    assert_eq!(w.updated_at, at(1_700_000_100));
    assert_eq!(w.score_buckets.current.challenge_id, "cur");
    assert_eq!(w.score_buckets.current.levels.len(), 2);
    assert_eq!(w.score_buckets.previous.challenge_id, "prev");
    assert_eq!(w.score_buckets.previous.levels.len(), 1);
    assert_eq!(w.score_buckets.previous.levels[0].id, "SP_9");
    assert_eq!(w.score_buckets.sheet_id, 7);
    assert_eq!(w.score_buckets.cur_id, 3);
}

#[test]
fn challenge_name_present_and_absent() {
    let c = challenge("c", &[]);
    assert_eq!(c.get_name(NameLang::En), "Low Gravity");
    assert_eq!(c.get_name(NameLang::ZhCh), "低重力");
    assert_eq!(c.get_name(NameLang::Fr), "Unknown");
    let empty = Challenge { name: vec![], ..c };
    assert_eq!(empty.get_name(NameLang::En), "Unknown");
}

#[test]
fn language_codes() {
    assert_eq!(NameLang::En.to_string(), "en");
    assert_eq!(NameLang::ZhCh.to_string(), "zh-CN");
    assert_eq!(NameLang::ZhTw.to_string(), "zh-TW");
    assert_eq!(NameLang::Tr.to_string(), "tr");
}

#[test]
fn physics_mod_round_trip() {
    let mods = vec![
        PhysicsMod::Gravity(1.5f32.to_bits()),
        PhysicsMod::RollX(0.25f32.to_bits()),
        PhysicsMod::AirJumps(3),
        PhysicsMod::CanBlast(false),
        PhysicsMod::MPSpawnOffset(true),
        PhysicsMod::StartPowerup("SuperJump".to_string()),
        PhysicsMod::ImpactY(2.0f32.to_bits()),
    ];
    for m in mods {
        assert_eq!(PhysicsMod::from_tagged(m.tag(), m.value()), Some(m.clone()));
    }
}

#[test]
fn physics_mod_tags() {
    assert_eq!(PhysicsMod::ImpactX(0).tag(), "impX");
    assert_eq!(PhysicsMod::RollY(0).tag(), "rollY");
    assert_eq!(PhysicsMod::MPSpawnOffset(false).tag(), "mpspawnoffset");
    assert_eq!(
        PhysicsMod::from_tagged("airjumps", ModValue::Int(2)),
        Some(PhysicsMod::AirJumps(2))
    );
}

#[test]
fn physics_mod_unknown_tag_or_wrong_payload() {
    assert_eq!(PhysicsMod::from_tagged("antigravity", ModValue::Float(0)), None);
    assert_eq!(PhysicsMod::from_tagged("Gravity", ModValue::Float(0)), None);
    assert_eq!(PhysicsMod::from_tagged("gravity", ModValue::Flag(true)), None);
}

#[test]
fn physics_mod_labels() {
    assert_eq!(PhysicsMod::Gravity(0).label(), "Gravity");
    assert_eq!(PhysicsMod::ScaleMult(0).label(), "Marble Size");
    assert_eq!(PhysicsMod::CanBlast(false).label(), "Blast Available");
    assert_eq!(PhysicsMod::TrophyEnd(true).label(), "Trophy is Goal");
}
