use bouncing_sprite::player::Player;

#[test]
fn marker_inside_the_area_stays_where_it_is() {
    let player = Player { x: 5, y: 3 };
    assert_eq!(player.render(10, 10), vec![(5, 3), (6, 3)]);
}

#[test]
fn marker_is_pulled_back_into_the_area() {
    let player = Player { x: 100, y: 50 };
    assert_eq!(player.render(10, 8), vec![(8, 7), (9, 7)]);
    let player = Player { x: 9, y: 0 };
    assert_eq!(player.render(10, 1), vec![(8, 0), (9, 0)]);
}

#[test]
fn marker_in_an_area_too_small_for_it() {
    let player = Player { x: 4, y: 4 };
    assert_eq!(player.render(0, 0), vec![(0, 0), (1, 0)]);
    assert_eq!(player.render(1, 1), vec![(0, 0), (1, 0)]);
    assert_eq!(player.render(2, 1), vec![(0, 0), (1, 0)]);
}

#[test]
fn marker_at_the_end_of_the_range() {
    let player = Player { x: u16::MAX, y: u16::MAX };
    assert_eq!(
        player.render(u16::MAX, u16::MAX),
        vec![(u16::MAX - 2, u16::MAX - 1), (u16::MAX - 1, u16::MAX - 1)]
    );
}
