use astraea::catalog::{Constellation, Sky, StarPos};

fn constellation(name: &str, star_count: usize, lines: &[[u32; 2]]) -> Constellation {
    let stars = (0..star_count).map(|id| StarPos { id, bfid: format!("{}{}", name, id) }).collect();
    Constellation { name: name.to_string(), stars, lines: lines.to_vec() }
}

fn small_sky() -> Sky {
    Sky {
        content: vec![
            constellation("Lyra", 5, &[[0, 1], [1, 2], [2, 3], [3, 4], [4, 1]]),
            constellation("Cygnus", 6, &[[0, 1], [1, 2], [3, 1], [1, 4]]),
            constellation("Lyra", 2, &[[0, 1]]),
            constellation("Aquila", 3, &[]),
        ],
    }
}

#[test]
fn segments_inside_the_member_list_are_well_formed() {
    assert!(constellation("Lyra", 3, &[[0, 1], [1, 2], [2, 0]]).is_well_formed());
}

#[test]
fn a_segment_to_a_missing_star_is_ill_formed() {
    assert!(!constellation("Lyra", 3, &[[0, 1], [1, 3]]).is_well_formed());
    assert!(!constellation("Lyra", 3, &[[3, 1]]).is_well_formed());
    assert!(!constellation("Lyra", 0, &[[0, 0]]).is_well_formed());
}

#[test]
fn a_figure_without_segments_is_well_formed() {
    assert!(constellation("Lyra", 0, &[]).is_well_formed());
}

#[test]
fn line_vertices_lists_both_ends_in_drawing_order() {
    let c = constellation("Cygnus", 6, &[[0, 1], [1, 2], [3, 1], [5, 4]]);
    assert!(c.is_well_formed());
    assert_eq!(c.line_vertices(), Some(vec![0, 1, 1, 2, 3, 1, 5, 4]));
}

#[test]
fn line_vertices_of_no_segments_is_empty() {
    let c = constellation("Aquila", 3, &[]);
    assert_eq!(c.line_vertices(), Some(vec![]));
}

#[test]
fn line_vertices_refuses_a_segment_to_a_missing_star() {
    assert_eq!(constellation("Lyra", 3, &[[0, 1], [1, 3]]).line_vertices(), None);
    assert_eq!(constellation("Lyra", 3, &[[7, 1], [1, 2]]).line_vertices(), None);
    assert_eq!(constellation("Lyra", 0, &[[0, 0]]).line_vertices(), None);
}

#[test]
fn sky_is_well_formed_when_each_constellation_is() {
    assert!(small_sky().is_well_formed());
    assert!(Sky { content: vec![] }.is_well_formed());
    let mut sky = small_sky();
    sky.content.push(constellation("Vela", 1, &[[0, 1]]));
    assert!(!sky.is_well_formed());
}

#[test]
fn as_string_keeps_catalogue_order() {
    assert_eq!(small_sky().as_string(), vec!["Lyra", "Cygnus", "Lyra", "Aquila"]);
    assert_eq!(Sky { content: vec![] }.as_string(), Vec::<String>::new());
}

#[test]
fn position_finds_the_first_of_that_name() {
    let sky = small_sky();
    assert_eq!(sky.position(&"Lyra".to_string()), Some(0));
    assert_eq!(sky.position(&"Cygnus".to_string()), Some(1));
    assert_eq!(sky.position(&"Aquila".to_string()), Some(3));
    assert_eq!(sky.position(&"Orion".to_string()), None);
    assert_eq!(sky.position(&"lyra".to_string()), None);
}

#[test]
fn place_is_that_of_the_first_of_that_name_or_the_head() {
    let sky = small_sky();
    assert_eq!(sky.place(&"Lyra".to_string()), Some(0));
    assert_eq!(sky.place(&"Cygnus".to_string()), Some(1));
    assert_eq!(sky.place(&"Aquila".to_string()), Some(3));
    assert_eq!(sky.place(&"Orion".to_string()), Some(0));
    assert_eq!(Sky { content: vec![] }.place(&"Lyra".to_string()), None);
    assert_eq!(Sky::default().content.len(), 0);
}

#[test]
fn get_constellation_returns_the_first_of_that_name() {
    let sky = small_sky();
    let found = sky.get_constellation(&"Lyra".to_string()).unwrap();
    assert_eq!(found.name, "Lyra");
    assert_eq!(found.stars.len(), 5);
    let found = sky.get_constellation(&"Aquila".to_string()).unwrap();
    assert_eq!(found.name, "Aquila");
    assert_eq!(found.stars.len(), 3);
}

#[test]
fn get_constellation_falls_back_to_the_head() {
    let sky = small_sky();
    let found = sky.get_constellation(&"Orion".to_string()).unwrap();
    assert_eq!(found.name, "Lyra");
    assert_eq!(found.stars.len(), 5);
}

#[test]
fn get_constellation_finds_nothing_in_an_empty_catalogue() {
    let sky = Sky { content: vec![] };
    assert!(sky.get_constellation(&"Lyra".to_string()).is_none());
}
