use yarge::sprite::animation::{Animation, Animations};

fn five_frame_run() -> Animation {
    let frames = vec![(0, 0), (16, 0), (32, 0), (48, 0), (64, 0)];
    let mut animation = Animation::new("run".to_string(), frames);
    animation.set_framerate(80);
    animation
}

#[test]
fn update_advances_once_the_framerate_is_exceeded() {
    let mut animations = Animations::new(vec![five_frame_run()]);
    animations.play("run");

    animations.update(45);
    assert_eq!(45, animations.accumulated);
    assert_eq!(0, animations.animations[0].current_frame);

    animations.update(45);
    assert_eq!(10, animations.accumulated);
    assert_eq!(1, animations.animations[0].current_frame);
}

#[test]
fn update_can_advance_several_frames_at_once() {
    let mut animations = Animations::new(vec![five_frame_run()]);
    animations.play("run");

    // 250 ticks exceed the 80-tick framerate three times over: the
    // remainder still exceeds it at 170 and at 90, but not at 10.
    animations.update(250);
    assert_eq!(10, animations.accumulated);
    assert_eq!(3, animations.animations[0].current_frame);
}

#[test]
fn update_wraps_at_the_end_of_the_frame_list() {
    let mut animations = Animations::new(vec![five_frame_run()]);
    animations.play("run");
    animations.set_frame(4);

    animations.update(81);
    assert_eq!(0, animations.animations[0].current_frame);
    assert_eq!(1, animations.accumulated);
}

#[test]
fn stop_resets_time_and_frame_even_while_stopped() {
    let mut animations = Animations::new(vec![five_frame_run()]);
    animations.play("run");
    animations.update(200);
    assert!(animations.is_playing());
    animations.pause();
    assert!(!animations.is_playing());

    animations.stop();
    assert_eq!(0, animations.accumulated);
    assert_eq!(0, animations.animations[0].current_frame);

    // A second stop on the already stopped clock resets just the same.
    animations.set_frame(3);
    animations.stop();
    assert!(!animations.is_playing());
    assert_eq!(0, animations.accumulated);
    assert_eq!(0, animations.animations[0].current_frame);
}

#[test]
fn get_frame_reads_the_active_offset_or_the_origin() {
    let mut animations = Animations::new(vec![five_frame_run()]);
    assert_eq!((0, 0), animations.get_frame());

    animations.play("run");
    animations.set_frame(2);
    assert_eq!((32, 0), animations.get_frame());
}

#[test]
fn out_of_range_frame_requests_wrap_to_the_first() {
    let mut animation = five_frame_run();
    animation.set_current_frame(9);
    assert_eq!(0, animation.current_frame);
    animation.set_current_frame(4);
    assert_eq!(4, animation.current_frame);
}

#[test]
fn paused_clock_ignores_ticks() {
    let mut animations = Animations::new(vec![five_frame_run()]);
    animations.play("run");
    animations.pause();
    animations.update(500);
    assert_eq!(0, animations.accumulated);
    assert_eq!(0, animations.animations[0].current_frame);

    animations.resume();
    assert!(animations.is_playing());
}

#[test]
fn registry_keeps_unique_records_in_order() {
    let walk = Animation::new("walk".to_string(), vec![(0, 0), (8, 0)]);
    let idle = Animation::new("idle".to_string(), vec![(0, 8)]);
    let animations = Animations::new(vec![walk, idle]);

    assert_eq!(2, animations.animations.len());
    assert_eq!("walk", animations.animations[0].name);
    assert_eq!(vec![(0, 0), (8, 0)], animations.animations[0].frames);
    assert_eq!("idle", animations.animations[1].name);
    assert_eq!(vec![(0, 8)], animations.animations[1].frames);
    assert!(!animations.is_playing());
    assert_eq!(0, animations.accumulated);
}

#[test]
fn a_later_record_of_the_same_name_replaces_the_earlier() {
    let first = Animation::new("walk".to_string(), vec![(0, 0)]);
    let second = Animation::new("walk".to_string(), vec![(8, 8), (16, 16)]);
    let animations = Animations::new(vec![first, second]);

    assert_eq!(1, animations.animations.len());
    assert_eq!(vec![(8, 8), (16, 16)], animations.animations[0].frames);
}

/// Decodes the animations of a JSON document into records, builds the
/// registry, and re-serializes what the registry holds: names, frame
/// order and framerates survive the round trip exactly.
#[test]
fn json_records_survive_a_round_trip() {
    let source = r#"[
        {"name": "walk", "frames": [[0, 0], [16, 0], [32, 0]], "framerate": 80},
        {"name": "idle", "frames": [[0, 16]], "framerate": 120}
    ]"#;
    let decoded: serde_json::Value = serde_json::from_str(source).unwrap();

    let mut records: Vec<Animation> = Vec::new();
    for entry in decoded.as_array().unwrap() {
        let name = entry["name"].as_str().unwrap().to_string();
        let mut frames: Vec<(i64, i64)> = Vec::new();
        for pair in entry["frames"].as_array().unwrap() {
            frames.push((pair[0].as_i64().unwrap(), pair[1].as_i64().unwrap()));
        }
        let mut record = Animation::new(name, frames);
        record.set_framerate(entry["framerate"].as_u64().unwrap() as u32);
        records.push(record);
    }

    let animations = Animations::new(records);

    let mut reencoded: Vec<serde_json::Value> = Vec::new();
    for animation in &animations.animations {
        let mut object = serde_json::Map::new();
        object.insert(
            "name".to_string(),
            serde_json::Value::String(animation.name.clone()),
        );
        let frames: Vec<serde_json::Value> = animation
            .frames
            .iter()
            .map(|(x, y)| {
                serde_json::Value::Array(vec![
                    serde_json::Value::from(*x),
                    serde_json::Value::from(*y),
                ])
            })
            .collect();
        object.insert("frames".to_string(), serde_json::Value::Array(frames));
        object.insert(
            "framerate".to_string(),
            serde_json::Value::from(animation.framerate),
        );
        reencoded.push(serde_json::Value::Object(object));
    }

    assert_eq!(decoded, serde_json::Value::Array(reencoded));
}
