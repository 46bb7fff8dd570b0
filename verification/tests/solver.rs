use overview_screen::geometry::{Constraint, Rect};
use overview_screen::layout::{horizontal_chunks, vertical_chunks, vertical_chunks_with_margin};

fn next(seed: &mut u64) -> u64 {
    *seed = seed.wrapping_mul(6364136223846793005).wrapping_add(1442695040888963407);
    *seed >> 33
}

fn floor_of(rule: &Constraint) -> u32 {
    match rule {
        Constraint::Length(n) => u32::from(*n),
        Constraint::Min(n) => u32::from(*n),
    }
}

fn meets(rule: &Constraint, size: u16) -> bool {
    match rule {
        Constraint::Length(n) => size == *n,
        Constraint::Min(n) => size >= *n,
    }
}

fn inner(area: Rect, margin: u16) -> Rect {
    if area.width < 2 * margin || area.height < 2 * margin {
        Rect { x: 0, y: 0, width: 0, height: 0 }
    } else {
        Rect { x: area.x + margin, y: area.y + margin, width: area.width - 2 * margin, height: area.height - 2 * margin }
    }
}

fn check_vertical(rules: &[Constraint], dest: Rect, chunks: &[Rect]) {
    assert_eq!(chunks.len(), rules.len());
    if chunks.is_empty() {
        return;
    }
    for chunk in chunks {
        assert_eq!((chunk.x, chunk.width), (dest.x, dest.width), "{:?} {:?} {:?}", rules, dest, chunks);
    }
    assert_eq!(chunks[0].y, dest.y, "{:?} {:?} {:?}", rules, dest, chunks);
    for pair in chunks.windows(2) {
        assert_eq!(
            u32::from(pair[0].y) + u32::from(pair[0].height),
            u32::from(pair[1].y),
            "{:?} {:?} {:?}",
            rules,
            dest,
            chunks
        );
    }
    let last = chunks[chunks.len() - 1];
    assert_eq!(u32::from(last.y) + u32::from(last.height), u32::from(dest.y) + u32::from(dest.height));
    let floor: u32 = rules.iter().map(floor_of).sum();
    let has_min = rules.iter().any(|r| matches!(r, Constraint::Min(_)));
    let extent = u32::from(dest.height);
    if floor == extent || (has_min && floor <= extent) {
        for (rule, chunk) in rules.iter().zip(chunks) {
            assert!(meets(rule, chunk.height), "{:?} {:?} {:?}", rules, dest, chunks);
        }
    }
}

fn transpose(r: Rect) -> Rect {
    Rect { x: r.y, y: r.x, width: r.height, height: r.width }
}

fn random_rules(seed: &mut u64) -> Vec<Constraint> {
    let n = next(seed) % 6;
    let mut rules = Vec::new();
    for _ in 0..n {
        let size = (next(seed) % 14) as u16;
        if next(seed) % 2 == 0 {
            rules.push(Constraint::Length(size));
        } else {
            rules.push(Constraint::Min(size));
        }
    }
    rules
}

fn random_area(seed: &mut u64) -> Rect {
    let width = (next(seed) % 60) as u16;
    let height = (next(seed) % 60) as u16;
    let (x, y) = match next(seed) % 3 {
        0 => (0, 0),
        1 => ((next(seed) % 50) as u16, (next(seed) % 50) as u16),
        _ => (65535 - width, 65535 - height),
    };
    Rect { x, y, width, height }
}

#[test]
fn vertical_chunks_tile_the_area_and_meet_rules_that_fit() {
    let mut seed = 7;
    for _ in 0..1500 {
        let rules = random_rules(&mut seed);
        let area = random_area(&mut seed);
        let chunks = vertical_chunks(rules.clone(), area);
        check_vertical(&rules, area, &chunks);
    }
}

#[test]
fn horizontal_chunks_tile_the_area_and_meet_rules_that_fit() {
    let mut seed = 11;
    for _ in 0..1500 {
        let rules = random_rules(&mut seed);
        let area = random_area(&mut seed);
        let chunks: Vec<Rect> = horizontal_chunks(rules.clone(), area).into_iter().map(transpose).collect();
        check_vertical(&rules, transpose(area), &chunks);
    }
}

#[test]
fn chunks_with_margin_tile_the_inside_and_meet_rules_that_fit() {
    let mut seed = 13;
    for _ in 0..1500 {
        let rules = random_rules(&mut seed);
        let area = random_area(&mut seed);
        let margin = (next(&mut seed) % 4) as u16;
        let chunks = vertical_chunks_with_margin(rules.clone(), area, margin);
        check_vertical(&rules, inner(area, margin), &chunks);
    }
}

#[test]
fn rules_that_add_up_to_the_height_are_all_met() {
    let mut seed = 17;
    for _ in 0..600 {
        let rules = random_rules(&mut seed);
        let floor: u32 = rules.iter().map(floor_of).sum();
        let area = Rect { x: (next(&mut seed) % 9) as u16, y: (next(&mut seed) % 9) as u16, width: 7, height: floor as u16 };
        let chunks = vertical_chunks(rules.clone(), area);
        check_vertical(&rules, area, &chunks);
        for (rule, chunk) in rules.iter().zip(&chunks) {
            assert_eq!(u32::from(chunk.height), floor_of(rule));
        }
    }
}

#[test]
fn one_min_rule_takes_what_the_lengths_leave() {
    let mut seed = 19;
    for _ in 0..600 {
        let before = (next(&mut seed) % 3) as usize;
        let after = (next(&mut seed) % 3) as usize;
        let mut rules = Vec::new();
        for _ in 0..before {
            rules.push(Constraint::Length((next(&mut seed) % 40) as u16));
        }
        let least = (next(&mut seed) % 40) as u16;
        rules.push(Constraint::Min(least));
        for _ in 0..after {
            rules.push(Constraint::Length((next(&mut seed) % 40) as u16));
        }
        let floor: u32 = rules.iter().map(floor_of).sum();
        let spare = (next(&mut seed) % 500) as u16;
        let area = Rect { x: 3, y: 1, width: floor as u16 + spare, height: 5 };
        let chunks = horizontal_chunks(rules.clone(), area);
        let mut x = area.x;
        for (i, (rule, chunk)) in rules.iter().zip(&chunks).enumerate() {
            let width = if i == before { least + spare } else { floor_of(rule) as u16 };
            assert_eq!(*chunk, Rect { x, y: 1, width, height: 5 });
            x += width;
        }
    }
}
