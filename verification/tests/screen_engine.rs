use pixel_stage::components::{Blinker, Breather, Laser, Sprite};
use pixel_stage::screen::{Bounds, Channel, Component, Pixel, Pos, Screen};

fn pos(x: usize, y: usize) -> Pos {
    Pos { x, y }
}

fn dot(x: usize, y: usize, color: u32) -> Pixel {
    Pixel { pos: pos(x, y), color }
}

#[test]
fn a_new_screen_holds_what_it_was_given() {
    let screen = Screen::new(vec![1, 2, 3, 4, 5, 6], 3, 2, vec![(dot(0, 0, 9), pos(1, 1))]);
    assert_eq!(*screen, vec![1, 2, 3, 4, 5, 6]);
    assert_eq!(screen.width(), 3);
    assert_eq!(screen.height(), 2);
    assert_eq!(screen.children(), &vec![(dot(0, 0, 9), pos(1, 1))]);
    let slice: &[u32] = screen.as_ref();
    assert_eq!(slice, &[1, 2, 3, 4, 5, 6]);
}

#[test]
fn get_reads_cells_in_row_major_order() {
    let screen: Screen<Pixel> = Screen::new(vec![10, 11, 12, 13, 14, 15], 3, 2, vec![]);
    assert_eq!(screen.get(pos(0, 0)), Some(&10));
    assert_eq!(screen.get(pos(2, 0)), Some(&12));
    assert_eq!(screen.get(pos(0, 1)), Some(&13));
    assert_eq!(screen.get(pos(2, 1)), Some(&15));
    assert_eq!(screen.get(pos(0, 2)), None);
    assert_eq!(screen.get(pos(3, 1)), None);
}

#[test]
fn a_column_past_the_row_reads_the_next_row() {
    let screen: Screen<Pixel> = Screen::new(vec![10, 11, 12, 13, 14, 15], 3, 2, vec![]);
    assert_eq!(screen.get(pos(3, 0)), Some(&13));
    assert_eq!(screen.get(pos(5, 0)), Some(&15));
    assert_eq!(screen.get(pos(6, 0)), None);
}

#[test]
fn positions_beyond_the_range_are_outside_the_buffer() {
    let mut screen: Screen<Pixel> = Screen::new(vec![0; 6], 3, 2, vec![]);
    assert_eq!(screen.get(pos(usize::MAX, 0)), None);
    assert_eq!(screen.get(pos(0, usize::MAX)), None);
    assert_eq!(screen.get(pos(usize::MAX, usize::MAX)), None);
    assert!(!screen.set(pos(1, usize::MAX), 7));
    assert!(screen.get_mut(pos(usize::MAX, 1)).is_none());
    assert_eq!(*screen, vec![0; 6]);
}

#[test]
fn a_screen_of_no_width_is_indexed_by_the_column_alone() {
    let mut screen: Screen<Pixel> = Screen::new(vec![0; 4], 0, 0, vec![]);
    assert!(screen.set(pos(2, 5), 7));
    assert!(screen.set(pos(3, usize::MAX), 8));
    assert!(!screen.set(pos(4, 0), 9));
    assert_eq!(*screen, vec![0, 0, 7, 8]);
}

#[test]
fn set_writes_one_cell_and_reports_whether_it_did() {
    let mut screen: Screen<Pixel> = Screen::new(vec![0; 6], 3, 2, vec![]);
    assert!(screen.set(pos(1, 1), 7));
    assert_eq!(*screen, vec![0, 0, 0, 0, 7, 0]);
    assert!(!screen.set(pos(0, 2), 8));
    assert_eq!(*screen, vec![0, 0, 0, 0, 7, 0]);
    assert!(screen.set_pixel(dot(2, 0, 9)));
    assert!(!screen.set_pixel(dot(1, 2, 9)));
    assert_eq!(*screen, vec![0, 0, 9, 0, 7, 0]);
}

#[test]
fn get_mut_hands_out_the_cell_itself() {
    let mut screen: Screen<Pixel> = Screen::new(vec![1, 2, 3, 4], 2, 2, vec![]);
    let cell = screen.get_mut(pos(1, 1)).unwrap();
    assert_eq!(*cell, 4);
    *cell = 40;
    assert_eq!(*screen, vec![1, 2, 3, 40]);
    assert!(screen.get_mut(pos(0, 2)).is_none());
}

#[test]
fn the_buffer_can_be_changed_through_the_screen() {
    let mut screen: Screen<Pixel> = Screen::new(vec![1, 2, 3, 4], 2, 2, vec![]);
    screen[0] = 9;
    screen.iter_mut().for_each(|cell| *cell += 1);
    assert_eq!(*screen, vec![10, 3, 4, 5]);
}

#[test]
fn render_puts_each_pixel_at_its_position_plus_the_offset() {
    let children = vec![(dot(1, 0, 0xaa), pos(1, 1)), (dot(0, 1, 0xbb), pos(2, 2))];
    let mut screen = Screen::new(vec![0; 16], 4, 4, children.clone());
    screen.render();
    let mut expected = vec![0; 16];
    expected[1 * 4 + 2] = 0xaa;
    expected[3 * 4 + 2] = 0xbb;
    assert_eq!(*screen, expected);
    assert_eq!(screen.get(pos(2, 1)), Some(&0xaa));
    assert_eq!(screen.get(pos(2, 3)), Some(&0xbb));
    assert_eq!(screen.children(), &children);
}

#[test]
fn render_lets_the_last_writer_win() {
    let children = vec![
        (dot(1, 1, 0xaa), pos(0, 0)),
        (dot(0, 0, 0xbb), pos(1, 1)),
        (dot(0, 1, 0xcc), pos(0, 0)),
    ];
    let mut screen = Screen::new(vec![0; 4], 2, 2, children);
    screen.render();
    assert_eq!(*screen, vec![0, 0, 0xcc, 0xbb]);
}

#[test]
fn render_drops_pixels_outside_the_buffer() {
    let children = vec![
        (dot(0, 0, 0xaa), pos(0, 2)),
        (dot(1, 1, 0xbb), pos(1, 1)),
        (dot(usize::MAX, 0, 0xcc), pos(1, 0)),
        (dot(0, usize::MAX, 0xdd), pos(0, 1)),
        (dot(0, 0, 0xee), pos(1, 0)),
    ];
    let mut screen = Screen::new(vec![0; 4], 2, 2, children);
    screen.render();
    assert_eq!(*screen, vec![0, 0xee, 0, 0]);
}

#[test]
fn render_keeps_what_no_pixel_lands_on() {
    let mut screen = Screen::new(vec![1, 2, 3, 4, 5, 6], 3, 2, vec![(dot(0, 0, 9), pos(1, 1))]);
    screen.render();
    assert_eq!(*screen, vec![1, 2, 3, 4, 9, 6]);
    screen.render();
    assert_eq!(*screen, vec![1, 2, 3, 4, 9, 6]);
}

#[test]
fn render_writes_in_registration_order_then_pixel_order() {
    let mut first = Laser::new(Bounds { width: 3, height: 3 }, pos(0, 0), 0x11);
    first.tick();
    first.tick();
    let mut second = Laser::new(Bounds { width: 3, height: 3 }, pos(0, 0), 0x22);
    second.tick();
    let mut screen = Screen::new(vec![0; 9], 3, 3, vec![(first, pos(0, 0)), (second, pos(1, 1))]);
    screen.render();
    assert_eq!(*screen, vec![0x11, 0, 0, 0, 0x22, 0, 0, 0, 0x22]);
}

#[test]
fn tick_advances_every_child_once_and_leaves_the_buffer() {
    let children = vec![
        (Sprite::Blinker(Blinker::new()), pos(0, 0)),
        (Sprite::Breather(Breather::new(0, Channel::Blue)), pos(1, 0)),
        (Sprite::Laser(Laser::new(Bounds { width: 3, height: 3 }, pos(0, 0), 0x33)), pos(0, 1)),
    ];
    let mut screen = Screen::new(vec![0; 12], 3, 4, children);
    screen.tick();
    assert_eq!(*screen, vec![0; 12]);
    assert_eq!(screen.children().len(), 3);
    assert_eq!(screen.children()[0].1, pos(0, 0));
    assert_eq!(screen.children()[1].1, pos(1, 0));
    assert_eq!(screen.children()[2].1, pos(0, 1));
    assert_eq!(screen.children()[0].0.render(), vec![dot(0, 0, 0xffff_ffff)]);
    assert_eq!(screen.children()[1].0.render(), vec![dot(0, 0, 1)]);
    assert_eq!(screen.children()[2].0.render(), vec![dot(0, 0, 0x33), dot(1, 1, 0x33)]);

    screen.render();
    assert_eq!(
        *screen,
        vec![0xffff_ffff, 1, 0, 0x33, 0, 0, 0, 0x33, 0, 0, 0, 0]
    );
}

#[test]
fn several_ticks_between_renders_add_up() {
    let laser = Laser::new(Bounds { width: 4, height: 4 }, pos(0, 0), 0x44);
    let mut screen = Screen::new(vec![0; 16], 4, 4, vec![(laser, pos(0, 0))]);
    for _ in 0..3 {
        screen.tick();
    }
    screen.render();
    let mut expected = vec![0; 16];
    for i in 0..4 {
        expected[i * 4 + i] = 0x44;
    }
    assert_eq!(*screen, expected);
}
