use transit_tracker::structs::UserData;
use transit_tracker::userdb::{find_user, upsert_user};

fn profile(id: &str, city: &str, addr: &str) -> UserData {
    UserData {
        id: id.to_string(),
        city: city.to_string(),
        addr: addr.to_string(),
        lat: "52.52".to_string(),
        lon: "13.41".to_string(),
    }
}

#[test]
fn test_upsert_appends_new_users() {
    let mut users: Vec<UserData> = Vec::new();
    upsert_user(&mut users, profile("1", "Berlin", "Alexanderplatz 1"));
    upsert_user(&mut users, profile("2", "Hamburg", "Jungfernstieg 7"));
    assert_eq!(users.len(), 2);
    assert_eq!(users[0].id, "1");
    assert_eq!(users[1].id, "2");
}

#[test]
fn test_upsert_overwrites_same_id() {
    let mut users: Vec<UserData> = Vec::new();
    upsert_user(&mut users, profile("1", "Berlin", "Alexanderplatz 1"));
    upsert_user(&mut users, profile("1", "Berlin", "Karl-Liebknecht-Str. 5"));
    assert_eq!(users.len(), 1);
    assert_eq!(users[0].addr, "Karl-Liebknecht-Str. 5");
}

#[test]
fn test_find_user() {
    let mut users: Vec<UserData> = Vec::new();
    upsert_user(&mut users, profile("1", "Berlin", "Alexanderplatz 1"));
    upsert_user(&mut users, profile("2", "Hamburg", "Jungfernstieg 7"));

    let found = find_user(&users, "2").expect("stored user");
    assert_eq!(found.city, "Hamburg");
    assert!(find_user(&users, "3").is_none());
    assert!(find_user(&Vec::new(), "1").is_none());
}
