use lsp_types::{DiagnosticTag, OneOf, TagSupport, WatchKind};

#[test]
fn watch_kind_flags_have_their_bits() {
    assert_eq!(WatchKind::Create().bits(), 1);
    assert_eq!(WatchKind::Change().bits(), 2);
    assert_eq!(WatchKind::Delete().bits(), 4);
    assert_eq!(WatchKind::empty().bits(), 0);
    assert_eq!(WatchKind::all().bits(), 7);
}

#[test]
fn watch_kind_union_of_flags() {
    assert_eq!((WatchKind::Create() | WatchKind::Change()).bits(), 3);
    assert_eq!((WatchKind::Create() | WatchKind::Change() | WatchKind::Delete()).bits(), 7);
    assert_eq!(WatchKind::Create() | WatchKind::Change() | WatchKind::Delete(), WatchKind::all());
    assert_eq!(WatchKind::Change().union(WatchKind::Delete()).bits(), 6);
}

#[test]
fn watch_kind_from_bits_rejects_unknown_bits() {
    for b in 0u8..=7 {
        assert_eq!(WatchKind::from_bits(b).map(|k| k.bits()), Some(b));
    }
    assert_eq!(WatchKind::from_bits(8), None);
    assert_eq!(WatchKind::from_bits(9), None);
    assert_eq!(WatchKind::from_bits(255), None);
    assert_eq!(WatchKind::from_bits_truncate(255).bits(), 7);
    assert_eq!(WatchKind::from_bits_truncate(10).bits(), 2);
}

#[test]
fn watch_kind_bits_round_trip() {
    let k = WatchKind::Create() | WatchKind::Delete();
    assert_eq!(WatchKind::from_bits(k.bits()), Some(k));
    assert_eq!(WatchKind::from_bits(WatchKind::empty().bits()), Some(WatchKind::empty()));
}

#[test]
fn watch_kind_queries() {
    let k = WatchKind::Create() | WatchKind::Change();
    assert!(k.contains(WatchKind::Create()));
    assert!(!k.contains(WatchKind::Delete()));
    assert!(!k.contains(WatchKind::all()));
    assert!(k.contains(WatchKind::empty()));
    assert!(k.intersects(WatchKind::Change() | WatchKind::Delete()));
    assert!(!k.intersects(WatchKind::Delete()));
    assert!(WatchKind::empty().is_empty());
    assert!(!k.is_empty());
    assert!(WatchKind::all().is_all());
    assert!(!k.is_all());
}

#[test]
fn watch_kind_set_operations() {
    let cc = WatchKind::Create() | WatchKind::Change();
    let cd = WatchKind::Create() | WatchKind::Delete();
    assert_eq!(cc.intersection(cd).bits(), 1);
    assert_eq!((cc & cd).bits(), 1);
    assert_eq!(cc.difference(cd).bits(), 2);
    assert_eq!((cc - cd).bits(), 2);
    assert_eq!(cc.symmetric_difference(cd).bits(), 6);
    assert_eq!((cc ^ cd).bits(), 6);
    assert_eq!(cc.complement().bits(), 4);
    assert_eq!((!cc).bits(), 4);
    assert_eq!((!WatchKind::empty()).bits(), 7);
}

#[test]
fn watch_kind_in_place_updates() {
    let mut k = WatchKind::empty();
    k.insert(WatchKind::Change());
    assert_eq!(k.bits(), 2);
    k.insert(WatchKind::Delete());
    assert_eq!(k.bits(), 6);
    k.remove(WatchKind::Change());
    assert_eq!(k.bits(), 4);
    k.toggle(WatchKind::Create() | WatchKind::Delete());
    assert_eq!(k.bits(), 1);
    k.set(WatchKind::Delete(), true);
    assert_eq!(k.bits(), 5);
    k.set(WatchKind::Create(), false);
    assert_eq!(k.bits(), 4);
}

#[test]
fn tag_support_compat_values() {
    assert_eq!(TagSupport::<DiagnosticTag>::resolve_compat(None), None);
    assert_eq!(TagSupport::<DiagnosticTag>::resolve_compat(Some(OneOf::Left(false))), None);
    assert_eq!(
        TagSupport::<DiagnosticTag>::resolve_compat(Some(OneOf::Left(true))),
        Some(TagSupport { value_set: vec![] })
    );
    let tags = TagSupport { value_set: vec![DiagnosticTag::Unnecessary, DiagnosticTag::Deprecated] };
    assert_eq!(TagSupport::resolve_compat(Some(OneOf::Right(tags.clone()))), Some(tags));
}
