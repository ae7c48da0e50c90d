use grid2d::{BuildError, Grid, GridBuilder};

#[test]
fn build_with_width_succeeds() {
    let grid = GridBuilder::new(vec![1, 2, 3, 4, 5, 6]).width(2).build().unwrap();
    assert_eq!(grid.width(), 2);
    assert_eq!(grid.height(), 3);
    assert_eq!(grid.size(), 6);
    assert_eq!(grid.as_slice(), &[1, 2, 3, 4, 5, 6]);
    assert_eq!(Ok(grid), Grid::from_vec(vec![1, 2, 3, 4, 5, 6], 2));
}

#[test]
fn build_with_height_succeeds() {
    let grid = GridBuilder::new(vec![1, 2, 3, 4, 5, 6]).height(2).build().unwrap();
    assert_eq!(grid.width(), 3);
    assert_eq!(grid.height(), 2);
    assert_eq!(grid.as_slice(), &[1, 2, 3, 4, 5, 6]);
}

#[test]
fn build_with_height_that_does_not_divide_fails() {
    let result = GridBuilder::new(vec![1, 2, 3, 4, 5, 6]).height(4).build();
    assert_eq!(result, Err(BuildError::SizeNotMultipleOfHeight(vec![1, 2, 3, 4, 5, 6])));
}

#[test]
fn build_with_both_succeeds() {
    let grid = GridBuilder::new(vec![1, 2, 3, 4, 5, 6]).width(3).height(2).build().unwrap();
    assert_eq!(grid.width(), 3);
    assert_eq!(grid.height(), 2);
}

#[test]
fn build_without_hints_fails() {
    let result = GridBuilder::new(vec![1, 2, 3, 4, 5]).build();
    assert_eq!(result, Err(BuildError::NeitherWidthNotHeightSet(vec![1, 2, 3, 4, 5])));
}

#[test]
fn build_too_wide_fails() {
    let result = GridBuilder::new(vec![1, 2, 3, 4, 5]).width(6).build();
    assert_eq!(result, Err(BuildError::TooWide(vec![1, 2, 3, 4, 5])));
}

#[test]
fn build_too_tall_fails() {
    let result = GridBuilder::new(vec![1, 2, 3, 4, 5]).height(6).build();
    assert_eq!(result, Err(BuildError::TooTall(vec![1, 2, 3, 4, 5])));
}

#[test]
fn build_size_mismatch_fails() {
    let result = GridBuilder::new(vec![1, 2, 3, 4, 5, 6]).width(3).height(3).build();
    assert_eq!(result, Err(BuildError::SizeDoesNotMatch(vec![1, 2, 3, 4, 5, 6])));
}

#[test]
fn build_size_mismatch_on_overflowing_product_fails() {
    let result = GridBuilder::new(vec![1, 2]).width(usize::MAX).height(2).build();
    assert_eq!(result, Err(BuildError::SizeDoesNotMatch(vec![1, 2])));
}

#[test]
fn build_not_multiple_of_width_fails() {
    let result = GridBuilder::new(vec![1, 2, 3, 4, 5]).width(3).build();
    assert_eq!(result, Err(BuildError::SizeNotMultipleOfWidth(vec![1, 2, 3, 4, 5])));
}

#[test]
fn build_not_multiple_of_height_fails() {
    let result = GridBuilder::new(vec![1, 2, 3, 4, 5]).height(2).build();
    assert_eq!(result, Err(BuildError::SizeNotMultipleOfHeight(vec![1, 2, 3, 4, 5])));
}

#[test]
fn build_of_nothing_fails() {
    let result = GridBuilder::new(Vec::<u8>::new()).width(1).build();
    assert_eq!(result, Err(BuildError::TooWide(vec![])));
    let result = GridBuilder::new(Vec::<u8>::new()).height(1).build();
    assert_eq!(result, Err(BuildError::TooTall(vec![])));
}

#[test]
fn failed_build_hands_the_items_back() {
    let error = GridBuilder::new(vec![1, 2, 3, 4, 5]).width(3).build().unwrap_err();
    let grid = GridBuilder::new(error.into_items()).width(5).build().unwrap();
    assert_eq!(grid.as_slice(), &[1, 2, 3, 4, 5]);
    assert_eq!(grid.height(), 1);
}

#[test]
fn later_hint_overwrites_earlier() {
    let grid = GridBuilder::new(vec![1, 2, 3, 4, 5, 6]).width(4).width(2).build().unwrap();
    assert_eq!(grid.width(), 2);
    let grid = GridBuilder::new(vec![1, 2, 3, 4, 5, 6]).height(4).height(6).build().unwrap();
    assert_eq!(grid.width(), 1);
}

#[test]
fn with_item_appends() {
    let grid = GridBuilder::new(vec![1, 2, 3, 4, 5]).width(2).with_item(6).build().unwrap();
    assert_eq!(grid.as_slice(), &[1, 2, 3, 4, 5, 6]);
}

#[test]
fn extend_appends_in_order() {
    let grid = GridBuilder::new(vec![1, 2, 3])
        .width(2)
        .extend(vec![4, 5, 6].into_iter())
        .build()
        .unwrap();
    assert_eq!(grid.as_slice(), &[1, 2, 3, 4, 5, 6]);
    let builder = GridBuilder::new(vec![1, 2, 3]).extend_from_vec(vec![4, 5]);
    assert_eq!(builder.items(), &vec![1, 2, 3, 4, 5]);
}

#[test]
fn builder_from_vec_has_no_hints() {
    let builder: GridBuilder<u8> = vec![1, 2].into();
    assert_eq!(builder, GridBuilder::new(vec![1, 2]));
    assert_eq!(builder.clone().build(), Err(BuildError::NeitherWidthNotHeightSet(vec![1, 2])));
}

#[test]
fn default_builder_is_empty() {
    let builder: GridBuilder<u8> = GridBuilder::default();
    assert_eq!(builder, GridBuilder::new(Vec::new()));
    assert_eq!(builder.items(), &Vec::<u8>::new());
    assert_eq!(builder.build(), Err(BuildError::NeitherWidthNotHeightSet(vec![])));
}

#[test]
fn builder_gives_its_items() {
    let mut builder = GridBuilder::new(vec![1, 2, 3]).width(2);
    assert_eq!(builder.len(), 3);
    assert_eq!(builder.first(), Some(&1));
    let items: &Vec<i32> = builder.as_ref();
    assert_eq!(items, &vec![1, 2, 3]);
    builder.push(4);
    builder.items_mut().push(5);
    let items: &mut Vec<i32> = builder.as_mut();
    items.push(6);
    assert_eq!(builder.items(), &vec![1, 2, 3, 4, 5, 6]);
    let grid = builder.build().unwrap();
    assert_eq!(grid.width(), 2);
    assert_eq!(grid.height(), 3);
    assert_eq!(grid.as_slice(), &[1, 2, 3, 4, 5, 6]);
}

#[test]
fn build_error_messages() {
    assert_eq!(
        BuildError::NeitherWidthNotHeightSet(vec![0]).message(),
        "neither a width nor a height was set"
    );
    assert_eq!(
        BuildError::TooWide(vec![0]).message(),
        "the specified width exceeds the amount of items"
    );
    assert_eq!(
        BuildError::TooTall(vec![0]).message(),
        "the specified height exceeds the amount of items"
    );
    assert_eq!(
        BuildError::SizeDoesNotMatch(vec![0]).message(),
        "the desired size does not match the amount of items"
    );
    assert_eq!(
        BuildError::SizeNotMultipleOfWidth(vec![0]).message(),
        "the desired width is not a multiple of the amount of items"
    );
    assert_eq!(
        BuildError::SizeNotMultipleOfHeight(vec![0]).message(),
        "the desired height is not a multiple of the amount of items"
    );
}
