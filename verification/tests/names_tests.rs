use partydeck::instance::Instance;
use partydeck::names::{assign_guest_name, set_instance_names, NameError};

fn instance(selection: usize) -> Instance {
    Instance {
        devices: vec![selection],
        profname: String::from("unnamed"),
        profselection: selection,
        width: 640,
        height: 480,
        gridposition: None,
    }
}

fn strings(names: &[&str]) -> Vec<String> {
    names.iter().map(|n| String::from(*n)).collect()
}

#[test]
fn guest_name_is_taken_from_the_pool() {
    let mut guest = instance(0);
    let mut pool = strings(&["Blinky", "Pinky", "Inky", "Clyde"]);
    assign_guest_name(&mut guest, &mut pool, 1);
    assert_eq!(guest.profname, ".Pinky");
    assert_eq!(pool, strings(&["Blinky", "Clyde", "Inky"]));
    assert_eq!(guest.devices, vec![0]);
    assert_eq!((guest.width, guest.height), (640, 480));
    assert_eq!(guest.profselection, 0);
}

#[test]
fn guest_name_from_the_end_of_the_pool() {
    let mut guest = instance(0);
    let mut pool = strings(&["Blinky", "Pinky"]);
    assign_guest_name(&mut guest, &mut pool, 1);
    assert_eq!(guest.profname, ".Pinky");
    assert_eq!(pool, strings(&["Blinky"]));
    assign_guest_name(&mut guest, &mut pool, 0);
    assert_eq!(guest.profname, ".Blinky");
    assert!(pool.is_empty());
}

#[test]
fn selected_profiles_give_their_names() {
    let mut instances = vec![instance(2), instance(1), instance(2)];
    let profiles = strings(&["Guest", "alice", "bob"]);
    let mut pool = strings(&["Blinky"]);
    assert_eq!(set_instance_names(&mut instances, &profiles, &mut pool), Ok(()));
    let names: Vec<&str> = instances.iter().map(|i| i.profname.as_str()).collect();
    assert_eq!(names, vec!["bob", "alice", "bob"]);
    assert_eq!(pool, strings(&["Blinky"]));
}

#[test]
fn guests_draw_different_names_from_the_pool() {
    for _ in 0..200 {
        let mut instances = vec![instance(0), instance(1), instance(0), instance(0)];
        let profiles = strings(&["Guest", "alice"]);
        let all = strings(&["Blinky", "Pinky", "Inky", "Clyde"]);
        let mut pool = all.clone();
        assert_eq!(set_instance_names(&mut instances, &profiles, &mut pool), Ok(()));
        assert_eq!(instances[1].profname, "alice");
        assert_eq!(pool.len(), 1);
        let mut seen: Vec<String> = pool.clone();
        for index in [0usize, 2, 3] {
            let name = &instances[index].profname;
            assert!(name.starts_with('.'));
            seen.push(name[1..].to_string());
            assert_eq!(instances[index].profselection, 0);
            assert_eq!(instances[index].devices, vec![0]);
        }
        seen.sort();
        let mut expected = all.clone();
        expected.sort();
        assert_eq!(seen, expected);
    }
}

#[test]
fn guests_can_use_up_the_pool() {
    let mut instances = vec![instance(0), instance(0)];
    let mut pool = strings(&["Blinky", "Pinky"]);
    assert_eq!(set_instance_names(&mut instances, &[], &mut pool), Ok(()));
    assert!(pool.is_empty());
    assert_ne!(instances[0].profname, instances[1].profname);
}

#[test]
fn every_name_of_the_pool_can_be_drawn() {
    let mut drawn = std::collections::HashSet::new();
    for _ in 0..400 {
        let mut instances = vec![instance(0)];
        let mut pool = strings(&["Blinky", "Pinky", "Inky"]);
        assert_eq!(set_instance_names(&mut instances, &[], &mut pool), Ok(()));
        drawn.insert(instances[0].profname.clone());
    }
    assert_eq!(drawn.len(), 3);
}

#[test]
fn too_many_guests_are_refused() {
    let mut instances = vec![instance(0), instance(1), instance(0)];
    let profiles = strings(&["Guest", "alice"]);
    let mut pool = strings(&["Blinky"]);
    assert_eq!(
        set_instance_names(&mut instances, &profiles, &mut pool),
        Err(NameError::NoGuestNameLeft)
    );
    assert_eq!(pool, strings(&["Blinky"]));
    for i in &instances {
        assert_eq!(i.profname, "unnamed");
    }
}

#[test]
fn unknown_profiles_are_refused() {
    let mut instances = vec![instance(0), instance(2)];
    let profiles = strings(&["Guest", "alice"]);
    let mut pool = strings(&["Blinky"]);
    assert_eq!(
        set_instance_names(&mut instances, &profiles, &mut pool),
        Err(NameError::UnknownProfile)
    );
    assert_eq!(pool, strings(&["Blinky"]));
    assert_eq!(instances[0].profname, "unnamed");
    assert_eq!(instances[1].profname, "unnamed");
}

#[test]
fn unknown_profile_is_reported_before_a_short_pool() {
    let mut instances = vec![instance(0), instance(5)];
    let mut pool: Vec<String> = Vec::new();
    assert_eq!(
        set_instance_names(&mut instances, &[], &mut pool),
        Err(NameError::UnknownProfile)
    );
}

#[test]
fn no_instances_need_no_names() {
    let mut instances: Vec<Instance> = Vec::new();
    let mut pool: Vec<String> = Vec::new();
    assert_eq!(set_instance_names(&mut instances, &[], &mut pool), Ok(()));
}
