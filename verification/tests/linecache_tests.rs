use editview::linecache::{Line, LineCache, LineUpdate, Patch, PatchError, PatchOp, StyleSpan};

fn line(text: &str) -> Line {
    Line { text: String::from(text), cursors: Vec::new(), styles: Vec::new() }
}

fn line_with_cursors(text: &str, cursors: Vec<usize>) -> Line {
    Line { text: String::from(text), cursors, styles: Vec::new() }
}

#[test]
fn empty_cache_has_zero_height() {
    let cache = LineCache::new();
    assert_eq!(cache.height(), 0);
    assert!(cache.get_line(0).is_none());
}

#[test]
fn ins_two_lines() {
    let mut cache = LineCache::new();
    let patch = Patch { ops: vec![PatchOp::Ins(vec![line("hello"), line("world")])], height: 2 };
    assert_eq!(cache.apply_update(&patch), Ok(()));
    assert_eq!(cache.height(), 2);
    assert_eq!(cache.get_line(0).unwrap().text, "hello");
    assert_eq!(cache.get_line(1).unwrap().text, "world");
    assert!(cache.get_line(2).is_none());
}

#[test]
fn copy_whole_cache_is_identity() {
    let mut cache = LineCache::new();
    let patch = Patch { ops: vec![PatchOp::Ins(vec![line("a"), line("b"), line("c")])], height: 3 };
    assert_eq!(cache.apply_update(&patch), Ok(()));
    let copy = Patch { ops: vec![PatchOp::Copy(3)], height: 3 };
    assert_eq!(cache.apply_update(&copy), Ok(()));
    assert_eq!(cache.height(), 3);
    assert_eq!(cache.get_line(0).unwrap().text, "a");
    assert_eq!(cache.get_line(1).unwrap().text, "b");
    assert_eq!(cache.get_line(2).unwrap().text, "c");
}

#[test]
fn overrun_is_rejected_and_cache_unchanged() {
    let mut cache = LineCache::new();
    let patch = Patch { ops: vec![PatchOp::Ins(vec![line("a"), line("b")])], height: 2 };
    assert_eq!(cache.apply_update(&patch), Ok(()));
    let bad = Patch { ops: vec![PatchOp::Copy(5)], height: 5 };
    assert_eq!(cache.apply_update(&bad), Err(PatchError::Overrun));
    assert_eq!(cache.height(), 2);
    assert_eq!(cache.get_line(0).unwrap().text, "a");
}

#[test]
fn underrun_is_rejected_and_cache_unchanged() {
    let mut cache = LineCache::new();
    let patch = Patch { ops: vec![PatchOp::Ins(vec![line("a"), line("b")])], height: 2 };
    assert_eq!(cache.apply_update(&patch), Ok(()));
    let bad = Patch { ops: vec![PatchOp::Copy(1)], height: 1 };
    assert_eq!(cache.apply_update(&bad), Err(PatchError::Underrun));
    assert_eq!(cache.height(), 2);
    assert_eq!(cache.get_line(1).unwrap().text, "b");
}

#[test]
fn height_mismatch_is_rejected_and_cache_unchanged() {
    let mut cache = LineCache::new();
    let bad = Patch { ops: vec![PatchOp::Ins(vec![line("a"), line("b")])], height: 3 };
    assert_eq!(cache.apply_update(&bad), Err(PatchError::HeightMismatch));
    assert_eq!(cache.height(), 0);
}

#[test]
fn invalidate_appends_invalid_slots() {
    let mut cache = LineCache::new();
    let patch = Patch {
        ops: vec![PatchOp::Ins(vec![line("head")]), PatchOp::Invalidate(2)],
        height: 3,
    };
    assert_eq!(cache.apply_update(&patch), Ok(()));
    assert_eq!(cache.height(), 3);
    assert_eq!(cache.get_line(0).unwrap().text, "head");
    assert!(cache.get_line(1).is_none());
    assert!(cache.get_line(2).is_none());
}

#[test]
fn skip_drops_old_slots() {
    let mut cache = LineCache::new();
    let patch = Patch { ops: vec![PatchOp::Ins(vec![line("a"), line("b")])], height: 2 };
    assert_eq!(cache.apply_update(&patch), Ok(()));
    let next = Patch {
        ops: vec![PatchOp::Skip(1), PatchOp::Copy(1), PatchOp::Ins(vec![line("c")])],
        height: 2,
    };
    assert_eq!(cache.apply_update(&next), Ok(()));
    assert_eq!(cache.height(), 2);
    assert_eq!(cache.get_line(0).unwrap().text, "b");
    assert_eq!(cache.get_line(1).unwrap().text, "c");
}

#[test]
fn update_overlays_cursors_and_keeps_text() {
    let mut cache = LineCache::new();
    let patch = Patch {
        ops: vec![PatchOp::Ins(vec![
            line_with_cursors("alpha", vec![1]),
            line_with_cursors("beta", vec![2]),
        ])],
        height: 2,
    };
    assert_eq!(cache.apply_update(&patch), Ok(()));
    let overlay = Patch {
        ops: vec![PatchOp::Update(
            2,
            vec![LineUpdate { cursors: Some(vec![3, 4]), styles: None }],
        )],
        height: 2,
    };
    assert_eq!(cache.apply_update(&overlay), Ok(()));
    let first = cache.get_line(0).unwrap();
    assert_eq!(first.text, "alpha");
    assert_eq!(first.cursors, vec![3, 4]);
    // the second slot had no update record: carried unchanged
    let second = cache.get_line(1).unwrap();
    assert_eq!(second.text, "beta");
    assert_eq!(second.cursors, vec![2]);
}

#[test]
fn update_keeps_absent_fields() {
    let mut cache = LineCache::new();
    let styled = Line {
        text: String::from("styled"),
        cursors: vec![5],
        styles: vec![StyleSpan { offset: 0, length: 6, style_id: 2 }],
    };
    let patch = Patch { ops: vec![PatchOp::Ins(vec![styled])], height: 1 };
    assert_eq!(cache.apply_update(&patch), Ok(()));
    let overlay = Patch {
        ops: vec![PatchOp::Update(1, vec![LineUpdate { cursors: None, styles: None }])],
        height: 1,
    };
    assert_eq!(cache.apply_update(&overlay), Ok(()));
    let got = cache.get_line(0).unwrap();
    assert_eq!(got.text, "styled");
    assert_eq!(got.cursors, vec![5]);
    assert_eq!(got.styles.len(), 1);
    assert_eq!(got.styles[0].style_id, 2);
}

#[test]
fn update_on_invalid_slot_stays_invalid() {
    let mut cache = LineCache::new();
    let patch = Patch { ops: vec![PatchOp::Invalidate(1)], height: 1 };
    assert_eq!(cache.apply_update(&patch), Ok(()));
    let overlay = Patch {
        ops: vec![PatchOp::Update(1, vec![LineUpdate { cursors: Some(vec![0]), styles: None }])],
        height: 1,
    };
    assert_eq!(cache.apply_update(&overlay), Ok(()));
    assert!(cache.get_line(0).is_none());
}

#[test]
fn len_equals_declared_height_after_each_patch() {
    let mut cache = LineCache::new();
    let patches = vec![
        Patch { ops: vec![PatchOp::Ins(vec![line("x"), line("y")])], height: 2 },
        Patch { ops: vec![PatchOp::Copy(2), PatchOp::Invalidate(3)], height: 5 },
        Patch { ops: vec![PatchOp::Skip(2), PatchOp::Copy(3)], height: 3 },
    ];
    for patch in &patches {
        assert_eq!(cache.apply_update(patch), Ok(()));
        assert_eq!(cache.height(), patch.height);
        for i in 0..cache.height() {
            // every slot is either present or reported invalid, never a panic
            let _ = cache.get_line(i);
        }
    }
}
