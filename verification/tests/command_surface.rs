use spoke_voice::commands::{full_mxid, invite_entry, room_entry};

#[test]
fn room_entry_prefers_the_room_name() {
    let r = room_entry("!abc:hs".to_string(), Some("General".to_string()));
    assert_eq!(r.id, "!abc:hs");
    assert_eq!(r.name, "General");
}

#[test]
fn room_entry_falls_back_to_the_id() {
    let r = room_entry("!abc:hs".to_string(), None);
    assert_eq!(r.name, "!abc:hs");
}

#[test]
fn invite_entry_falls_back_and_has_no_inviter() {
    let i = invite_entry("!abc:hs".to_string(), None);
    assert_eq!(i.room_name, "!abc:hs");
    assert_eq!(i.inviter, "");
    let j = invite_entry("!abc:hs".to_string(), Some("Ops".to_string()));
    assert_eq!(j.room_name, "Ops");
}

#[test]
fn full_mxid_passes_full_ids_through() {
    assert_eq!(full_mxid("@bob:elsewhere.org", "localhost"), "@bob:elsewhere.org");
}

#[test]
fn full_mxid_builds_an_id_from_a_bare_username() {
    assert_eq!(full_mxid("bob", "localhost"), "@bob:localhost");
    assert_eq!(full_mxid("", "hs.example"), "@:hs.example");
}
