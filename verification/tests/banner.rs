use cache_gate::banner::{
    banner_address, banner_weights, can_draw, draw_banner, select_random_banner, Banner,
    BannerError,
};

fn banner(url: &str, weight: Option<u64>) -> Banner {
    Banner { url: Some(url.to_string()), weight }
}

#[test]
fn weight_defaults_to_one() {
    assert_eq!(banner_weights(&vec![banner("a", None), banner("b", Some(3))]), vec![1, 3]);
    assert_eq!(banner_weights(&Vec::new()), Vec::<u32>::new());
}

#[test]
fn weight_keeps_its_low_32_bits() {
    let banners = vec![
        banner("a", Some(0)),
        banner("b", Some(u32::MAX as u64)),
        banner("c", Some(1u64 << 32)),
        banner("d", Some((1u64 << 32) + 5)),
        banner("e", Some(u64::MAX)),
    ];
    assert_eq!(banner_weights(&banners), vec![0, u32::MAX, 0, 5, u32::MAX]);
}

#[test]
fn no_draw_without_a_weight_above_zero() {
    assert!(!can_draw(&Vec::new()));
    assert!(!can_draw(&vec![0]));
    assert!(!can_draw(&vec![0, 0, 0]));
}

#[test]
fn no_draw_where_the_sum_leaves_the_range() {
    assert!(!can_draw(&vec![u32::MAX, 1]));
    assert!(!can_draw(&vec![1, u32::MAX]));
    assert!(!can_draw(&vec![1u32 << 31, 1u32 << 31]));
    assert!(!can_draw(&vec![u32::MAX, u32::MAX, 2]));
}

#[test]
fn draw_is_possible_up_to_the_end_of_the_range() {
    assert!(can_draw(&vec![1]));
    assert!(can_draw(&vec![0, 1, 0]));
    assert!(can_draw(&vec![u32::MAX]));
    assert!(can_draw(&vec![u32::MAX - 1, 1]));
    assert!(can_draw(&vec![1u32 << 31, (1u32 << 31) - 2, 1]));
}

#[test]
fn draw_never_lands_on_a_weight_of_zero() {
    let banners = vec![banner("a", Some(0)), banner("b", Some(0)), banner("c", Some(7))];
    for _ in 0..200 {
        assert_eq!(draw_banner(&banners), Some(2));
    }
    let banners = vec![banner("a", Some(0)), banner("b", None), banner("c", Some(1u64 << 32))];
    for _ in 0..200 {
        assert_eq!(draw_banner(&banners), Some(1));
    }
}

#[test]
fn draw_stays_among_the_banners() {
    let banners = vec![banner("a", Some(2)), banner("b", None), banner("c", Some(1))];
    let mut seen = [false; 3];
    for _ in 0..2000 {
        let drawn = draw_banner(&banners).unwrap();
        assert!(drawn < 3);
        seen[drawn] = true;
    }
    assert_eq!(seen, [true, true, true]);
}

#[test]
fn nothing_is_drawn_where_no_draw_is_possible() {
    assert_eq!(draw_banner(&Vec::new()), None);
    assert_eq!(draw_banner(&vec![banner("a", Some(0))]), None);
    assert_eq!(draw_banner(&vec![banner("a", Some(u32::MAX as u64)), banner("b", None)]), None);
    assert_eq!(select_random_banner(&Vec::new()), Err(BannerError::NothingToDraw));
    assert_eq!(
        select_random_banner(&vec![banner("a", Some(0)), banner("b", Some(1u64 << 40))]),
        Err(BannerError::NothingToDraw)
    );
}

#[test]
fn selection_gives_the_address_of_the_drawn_banner() {
    let banners = vec![banner("https://a.png", Some(0)), banner("https://b.png", Some(4))];
    for _ in 0..50 {
        assert_eq!(select_random_banner(&banners), Ok("https://b.png"));
    }
    let banners = vec![banner("https://only.png", None)];
    assert_eq!(select_random_banner(&banners), Ok("https://only.png"));
}

#[test]
fn selection_of_a_banner_without_address_fails() {
    let banners = vec![Banner { url: None, weight: Some(3) }, banner("x", Some(0))];
    assert_eq!(select_random_banner(&banners), Err(BannerError::NoAddress));
}

#[test]
fn address_of_a_given_place() {
    let banners = vec![banner("a", None), Banner { url: None, weight: None }];
    assert_eq!(banner_address(&banners, Some(0)), Ok("a"));
    assert_eq!(banner_address(&banners, Some(1)), Err(BannerError::NoAddress));
    assert_eq!(banner_address(&banners, Some(2)), Err(BannerError::NothingToDraw));
    assert_eq!(banner_address(&banners, None), Err(BannerError::NothingToDraw));
}
