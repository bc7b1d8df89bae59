use lunu_auth::limits::{pack_limit_key, unpack_limit_key, Limits, Money};
use lunu_auth::models::{
    Approval, KycLevel, LimitLevel, LimitPeriod, Microservice, ProfileIndex, ScopeKind,
};

#[test]
fn scope_labels_round_trip() {
    let all = [
        ScopeKind::Public,
        ScopeKind::Customer,
        ScopeKind::Retailer,
        ScopeKind::Partner,
        ScopeKind::Admin,
    ];
    for (i, k) in all.iter().enumerate() {
        assert_eq!(ScopeKind::from_label(k.label()), Some(*k));
        assert_eq!(k.code(), i as i32);
    }
    assert_eq!(ScopeKind::from_label("public"), None);
    assert_eq!(ScopeKind::from_label(""), None);
    assert_eq!(ScopeKind::Admin.label(), "Admin");
}

#[test]
fn kyc_level_labels_round_trip() {
    let all = [KycLevel::Level0, KycLevel::Level1, KycLevel::Level2, KycLevel::Level3];
    for (i, k) in all.iter().enumerate() {
        assert_eq!(KycLevel::from_label(k.label()), Some(*k));
        assert_eq!(k.code(), i as u8);
    }
    assert_eq!(KycLevel::from_label("Level4"), None);
    assert_eq!(KycLevel::Level2.label(), "Level2");
}

#[test]
fn approval_codes_and_labels_round_trip() {
    let all = [Approval::OnHold, Approval::Approved, Approval::Rejected];
    for (i, a) in all.iter().enumerate() {
        assert_eq!(Approval::from_label(a.label()), Some(*a));
        assert_eq!(Approval::from_code(a.code()), Some(*a));
        assert_eq!(a.code(), i as u8);
    }
    assert_eq!(Approval::from_code(3), None);
    assert_eq!(Approval::from_label("Pending"), None);
    assert_eq!(Approval::Rejected.label(), "Rejected");
}

#[test]
fn limit_level_codes_and_labels_round_trip() {
    let all = [
        LimitLevel::KycLevel0,
        LimitLevel::KycLevel1,
        LimitLevel::KycLevel2,
        LimitLevel::KycLevel3,
        LimitLevel::Overall,
    ];
    for (i, l) in all.iter().enumerate() {
        assert_eq!(LimitLevel::from_label(l.label()), Some(*l));
        assert_eq!(LimitLevel::from_code(l.code()), Some(*l));
        assert_eq!(l.code(), i as u8);
    }
    assert_eq!(LimitLevel::from_code(5), None);
    assert_eq!(LimitLevel::from_label("Total"), None);
}

#[test]
fn limit_period_codes_and_labels_round_trip() {
    let all = [LimitPeriod::Daily, LimitPeriod::Weekly, LimitPeriod::Monthly];
    for (i, p) in all.iter().enumerate() {
        assert_eq!(LimitPeriod::from_label(p.label()), Some(*p));
        assert_eq!(LimitPeriod::from_code(p.code()), Some(*p));
        assert_eq!(p.code(), i as u8);
    }
    assert_eq!(LimitPeriod::from_code(3), None);
    assert_eq!(LimitPeriod::from_label("Yearly"), None);
}

#[test]
fn profile_index_conversions() {
    let all = [ProfileIndex::Zero, ProfileIndex::One, ProfileIndex::Two];
    for (i, p) in all.iter().enumerate() {
        assert_eq!(ProfileIndex::from_label(p.label()), Some(*p));
        assert_eq!(ProfileIndex::try_from_index(i), Some(*p));
    }
    assert_eq!(ProfileIndex::try_from_index(3), None);
    assert_eq!(ProfileIndex::from_label("3"), None);
    assert_eq!(ProfileIndex::One.label(), "1");
}

#[test]
fn microservice_addresses() {
    assert_eq!(Microservice::Auth.addr(), "[::1]:50051");
    assert_eq!(Microservice::Account.addr(), "[::1]:50052");
    assert_eq!(Microservice::Storage.addr(), "[::1]:50053");
    assert_eq!(Microservice::Email.addr(), "[::1]:50054");
}

#[test]
fn limit_keys_round_trip() {
    let periods = [LimitPeriod::Daily, LimitPeriod::Weekly, LimitPeriod::Monthly];
    let levels = [
        LimitLevel::KycLevel0,
        LimitLevel::KycLevel1,
        LimitLevel::KycLevel2,
        LimitLevel::KycLevel3,
        LimitLevel::Overall,
    ];
    for p in periods {
        for l in levels {
            let key = pack_limit_key(p, l);
            assert_eq!(unpack_limit_key(key), Some((p, l)));
            // The period ordinal sits in the third byte, the level
            // ordinal in the fourth; the low bytes stay zero.
            assert_eq!(key.to_le_bytes(), [0, 0, p.code(), l.code()]);
            // The low two bytes are ignored on the way back in.
            assert_eq!(unpack_limit_key(key | 0x1234), Some((p, l)));
        }
    }
    assert_eq!(pack_limit_key(LimitPeriod::Weekly, LimitLevel::Overall), 0x0401_0000);
}

#[test]
fn limit_keys_refuse_unknown_ordinals() {
    assert_eq!(unpack_limit_key(0x0003_0000), None); // period ordinal 3
    assert_eq!(unpack_limit_key(0x0500_0000), None); // level ordinal 5
    assert_eq!(unpack_limit_key(u32::MAX), None);
}

#[test]
fn limits_wire_round_trip() {
    let wire = vec![
        (
            pack_limit_key(LimitPeriod::Daily, LimitLevel::KycLevel1),
            Money { currency_code: String::from("EUR"), digits: vec![0x10, 0x27], exponent: 2 },
        ),
        (
            pack_limit_key(LimitPeriod::Monthly, LimitLevel::Overall),
            Money { currency_code: String::from("USD"), digits: vec![0x01], exponent: 0 },
        ),
    ];
    let limits = Limits::from_wire(wire);
    assert_eq!(limits.entries.len(), 2);
    assert_eq!(limits.entries[0].0, (LimitPeriod::Daily, LimitLevel::KycLevel1));
    assert_eq!(limits.entries[0].1.currency_code, "EUR");
    assert_eq!(limits.entries[1].0, (LimitPeriod::Monthly, LimitLevel::Overall));
    assert_eq!(limits.entries[1].1.exponent, 0);

    let back = limits.into_wire();
    assert_eq!(back.len(), 2);
    assert_eq!(back[0].0, pack_limit_key(LimitPeriod::Daily, LimitLevel::KycLevel1));
    assert_eq!(back[0].1.digits, vec![0x10, 0x27]);
    assert_eq!(back[1].0, pack_limit_key(LimitPeriod::Monthly, LimitLevel::Overall));
    assert_eq!(back[1].1.currency_code, "USD");
}
