use canteen::meal::{CreateMealDto, Meal, MealDto, MealService};

fn stored(rows: &[(i32, i32)]) -> Vec<Meal> {
    rows.iter().map(|&(id, product_id)| Meal { id, product_id }).collect()
}

#[test]
fn match_ignores_the_order_of_the_products() {
    let meals = stored(&[(7, 1), (7, 2), (7, 3)]);
    assert!(MealService::exists_with_exact_product_ids(&meals, &vec![3, 1, 2]));
    assert_eq!(MealService::find_with_exact_product_ids(&meals, &vec![3, 1, 2]), Some(7));
    assert!(MealService::exists_with_exact_product_ids(&meals, &vec![1, 2, 3]));
    assert!(MealService::exists_with_exact_product_ids(&meals, &vec![2, 3, 1]));
}

#[test]
fn part_of_a_meal_does_not_match() {
    let meals = stored(&[(7, 1), (7, 2), (7, 3)]);
    assert!(!MealService::exists_with_exact_product_ids(&meals, &vec![1, 2]));
    assert_eq!(MealService::find_with_exact_product_ids(&meals, &vec![1, 2]), None);
}

#[test]
fn more_than_a_meal_does_not_match() {
    let meals = stored(&[(7, 1), (7, 2)]);
    assert!(!MealService::exists_with_exact_product_ids(&meals, &vec![1, 2, 3]));
}

#[test]
fn match_counts_how_often_a_product_is_named() {
    let twice = stored(&[(4, 1), (4, 1), (4, 2)]);
    assert!(MealService::exists_with_exact_product_ids(&twice, &vec![1, 2, 1]));
    assert!(!MealService::exists_with_exact_product_ids(&twice, &vec![1, 2]));
    assert!(!MealService::exists_with_exact_product_ids(&twice, &vec![1, 2, 2]));
    let once = stored(&[(4, 1), (4, 2)]);
    assert!(!MealService::exists_with_exact_product_ids(&once, &vec![1, 1, 2]));
}

#[test]
fn no_products_match_no_meal() {
    assert!(!MealService::exists_with_exact_product_ids(&Vec::new(), &Vec::new()));
    let meals = stored(&[(7, 1)]);
    assert!(!MealService::exists_with_exact_product_ids(&meals, &Vec::new()));
    assert!(!MealService::exists_with_exact_product_ids(&Vec::new(), &vec![1]));
}

#[test]
fn the_first_matching_row_names_the_meal() {
    let meals = stored(&[(9, 1), (3, 2), (5, 2), (3, 1), (5, 1), (9, 3)]);
    assert_eq!(MealService::find_with_exact_product_ids(&meals, &vec![1, 2]), Some(3));
    assert_eq!(MealService::find_with_exact_product_ids(&meals, &vec![3, 1]), Some(9));
    assert_eq!(MealService::find_with_exact_product_ids(&meals, &vec![2]), None);
}

#[test]
fn rows_of_meals_are_told_apart_by_their_id() {
    let meals = stored(&[(1, 10), (2, 20), (1, 30), (2, 40)]);
    let groups = MealService::products_by_meal(&meals);
    assert_eq!(groups.len(), 2);
    assert_eq!(groups.get(&1), Some(&vec![10, 30]));
    assert_eq!(groups.get(&2), Some(&vec![20, 40]));
    assert_eq!(groups.get(&3), None);
    assert!(MealService::products_by_meal(&Vec::new()).is_empty());
}

#[test]
fn new_meal_has_one_row_for_each_product() {
    let rows = MealService::create_meal_with_products(12, &vec![5, 6, 5]);
    assert_eq!(rows, stored(&[(12, 5), (12, 6), (12, 5)]));
    assert_eq!(MealService::create_meal_with_products(12, &Vec::new()), Vec::<Meal>::new());
    assert_eq!(MealService::create_meal(8), CreateMealDto { product_id: 8 });
}

#[test]
fn stored_meal_is_found_again() {
    let mut meals = stored(&[(1, 5), (1, 7)]);
    assert!(!MealService::exists_with_exact_product_ids(&meals, &vec![5, 6]));
    meals.extend(MealService::create_meal_with_products(2, &vec![5, 6]));
    assert_eq!(MealService::find_with_exact_product_ids(&meals, &vec![6, 5]), Some(2));
    assert_eq!(MealService::find_with_exact_product_ids(&meals, &vec![7, 5]), Some(1));
}

#[test]
fn update_of_a_meal_replaces_the_product() {
    let meals = stored(&[(1, 5), (2, 6)]);
    assert_eq!(MealService::update_meal(&meals, 2, Some(9)), Some(Meal { id: 2, product_id: 9 }));
    assert_eq!(MealService::update_meal(&meals, 2, None), Some(Meal { id: 2, product_id: 6 }));
}

#[test]
fn update_of_a_missing_meal_finds_nothing() {
    let meals = stored(&[(1, 5), (2, 6)]);
    assert_eq!(MealService::update_meal(&meals, 3, Some(9)), None);
    assert_eq!(MealService::update_meal(&Vec::new(), 1, None), None);
}

#[test]
fn meals_are_read_by_id_and_by_product() {
    let meals = stored(&[(1, 5), (2, 6), (3, 5)]);
    assert_eq!(MealService::get_all_meals(&meals), meals);
    assert_eq!(MealService::get_meal_by_id(&meals, 2), Some(Meal { id: 2, product_id: 6 }));
    assert_eq!(MealService::get_meal_by_id(&meals, 4), None);
    assert_eq!(MealService::get_meals_by_product_id(&meals, 5), stored(&[(1, 5), (3, 5)]));
    assert_eq!(MealService::get_meals_by_product_id(&meals, 7), Vec::<Meal>::new());
    assert!(MealService::exists_by_id(&meals, 3));
    assert!(!MealService::exists_by_id(&meals, 4));
    assert_eq!(MealDto::from(meals[0]), MealDto { id: 1, product_id: 5 });
}

#[test]
fn match_reads_only_the_meals_with_a_wanted_product() {
    let all = stored(&[(1, 5), (2, 8), (3, 6), (1, 6), (3, 5), (4, 9), (2, 5)]);
    for wanted in [vec![5, 6], vec![6, 5], vec![5], vec![8, 5], vec![9], vec![7], vec![]] {
        let ids: Vec<i32> = all.iter().filter(|m| wanted.contains(&m.product_id)).map(|m| m.id).collect();
        let near: Vec<Meal> = all.iter().filter(|m| ids.contains(&m.id)).cloned().collect();
        assert_eq!(
            MealService::find_with_exact_product_ids(&near, &wanted),
            MealService::find_with_exact_product_ids(&all, &wanted)
        );
    }
    assert_eq!(MealService::find_with_exact_product_ids(&all, &vec![6, 5]), Some(1));
    assert_eq!(MealService::find_with_exact_product_ids(&all, &vec![8, 5]), Some(2));
    assert_eq!(MealService::find_with_exact_product_ids(&all, &vec![5]), None);
}

#[test]
fn removal_of_no_row_removed_no_meal() {
    assert!(!MealService::delete_meal(0));
    assert!(MealService::delete_meal(1));
    assert!(MealService::delete_meal(u64::MAX));
}

#[test]
fn fresh_id_lies_above_every_stored_id() {
    assert_eq!(MealService::fresh_id(&Vec::new()), Some(1));
    assert_eq!(MealService::fresh_id(&stored(&[(3, 1), (7, 2), (5, 9)])), Some(8));
    assert_eq!(MealService::fresh_id(&stored(&[(-4, 1)])), Some(1));
    assert_eq!(MealService::fresh_id(&stored(&[(i32::MAX - 1, 1)])), Some(i32::MAX));
    assert_eq!(MealService::fresh_id(&stored(&[(2, 1), (i32::MAX, 1)])), None);
}
