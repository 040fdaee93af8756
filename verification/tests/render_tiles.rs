use rock_paper_scissors::hand::Hand;
use rock_paper_scissors::particle::Particle;
use rock_paper_scissors::render::Tile;
use rock_paper_scissors::simulation::Simulation;

#[test]
fn glyphs_of_the_three_hands() {
    assert_eq!(Hand::Rock.glyph(), 199);
    assert_eq!(Hand::Paper.glyph(), 193);
    assert_eq!(Hand::Scissors.glyph(), 196);
}

#[test]
fn rock_sprite_at_ten_twenty() {
    let particle = Particle { body: (10.4f64, 20.9f64), hand: Hand::Rock };
    let tiles = particle.render(10, 20);
    let expected = vec![
        Tile { x: 9, y: 21, glyph: 214 },
        Tile { x: 9, y: 20, glyph: 198 },
        Tile { x: 9, y: 19, glyph: 182 },
        Tile { x: 10, y: 21, glyph: 215 },
        Tile { x: 10, y: 20, glyph: 199 },
        Tile { x: 10, y: 19, glyph: 183 },
        Tile { x: 11, y: 21, glyph: 216 },
        Tile { x: 11, y: 20, glyph: 200 },
        Tile { x: 11, y: 19, glyph: 184 },
    ];
    assert_eq!(tiles, expected);
}

#[test]
fn paper_sprite_at_the_origin() {
    let particle = Particle { body: (), hand: Hand::Paper };
    let tiles = particle.render(0, 0);
    let expected = vec![
        Tile { x: -1, y: 1, glyph: 208 },
        Tile { x: -1, y: 0, glyph: 192 },
        Tile { x: -1, y: -1, glyph: 176 },
        Tile { x: 0, y: 1, glyph: 209 },
        Tile { x: 0, y: 0, glyph: 193 },
        Tile { x: 0, y: -1, glyph: 177 },
        Tile { x: 1, y: 1, glyph: 210 },
        Tile { x: 1, y: 0, glyph: 194 },
        Tile { x: 1, y: -1, glyph: 178 },
    ];
    assert_eq!(tiles, expected);
}

#[test]
fn centre_tile_shows_the_glyph_of_the_hand() {
    for hand in [Hand::Rock, Hand::Paper, Hand::Scissors] {
        let tiles = Particle { body: (), hand }.render(40, 79);
        assert_eq!(tiles.len(), 9);
        assert_eq!(tiles[4], Tile { x: 40, y: 79, glyph: hand.glyph() });
    }
}

#[test]
fn sprite_next_to_the_limits_of_the_grid() {
    let particle = Particle { body: (), hand: Hand::Scissors };
    let tiles = particle.render(i32::MAX - 1, i32::MIN + 1);
    assert_eq!(tiles[0], Tile { x: i32::MAX - 2, y: i32::MIN + 2, glyph: 211 });
    assert_eq!(tiles[8], Tile { x: i32::MAX, y: i32::MIN, glyph: 181 });
}

#[test]
fn scissors_sprite_glyphs() {
    let tiles = Particle { body: (), hand: Hand::Scissors }.render(5, 5);
    let glyphs: Vec<u16> = tiles.iter().map(|tile| tile.glyph).collect();
    assert_eq!(glyphs, vec![211, 195, 179, 212, 196, 180, 213, 197, 181]);
}

#[test]
fn sprites_of_different_hands_share_no_glyph() {
    let hands = [Hand::Rock, Hand::Paper, Hand::Scissors];
    for a in hands {
        for b in hands {
            if a == b {
                continue;
            }
            let left = Particle { body: (), hand: a }.render(0, 0);
            let right = Particle { body: (), hand: b }.render(0, 0);
            for tile in &left {
                for other in &right {
                    assert_ne!(tile.glyph, other.glyph);
                }
            }
        }
    }
}

#[test]
fn population_is_drawn_particle_by_particle() {
    let simulation = Simulation::from_particles(vec![
        Particle { body: (3.7f64, 4.2f64), hand: Hand::Paper },
        Particle { body: (70.0, 9.9), hand: Hand::Rock },
    ]);
    let tiles = simulation.render(&vec![(3, 4), (70, 9)]);
    assert_eq!(tiles.len(), 18);
    assert_eq!(tiles[..9], simulation.particle(0).render(3, 4)[..]);
    assert_eq!(tiles[9..], simulation.particle(1).render(70, 9)[..]);
    assert_eq!(tiles[0], Tile { x: 2, y: 5, glyph: 208 });
    assert_eq!(tiles[13], Tile { x: 70, y: 9, glyph: 199 });
    assert_eq!(tiles[17], Tile { x: 71, y: 8, glyph: 184 });
}

#[test]
fn empty_population_draws_nothing() {
    let simulation: Simulation<()> = Simulation::from_particles(Vec::new());
    assert_eq!(simulation.render(&Vec::new()), Vec::new());
}
