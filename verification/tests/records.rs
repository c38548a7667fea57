use canteen::calendar::Timestamp;
use canteen::customer::{CreateCustomerDto, CustomerDto};
use canteen::model::{contains_id, position_of_id, Row};
use canteen::order::{CreateOrderDetailsDto, CreateOrderDto, Order, OrderDetails, OrderDetailsDto, OrderDto};
use canteen::order_customer::{CreateOrderCustomerDto, OrderCustomerDto};
use canteen::product::{CreateProductDto, Product, ProductDto, ProductService};
use canteen::response::ApiResponse;
use canteen::session::{ActiveSession, ActiveSessionDto, CreateActiveSessionDto};
use canteen::sorting::{same_sequence, sorted_copy};
use canteen::system_log::{CreateSystemLogDto, SystemLogDto};

fn at(seconds: i64) -> Timestamp {
    Timestamp::new(seconds, 0).unwrap()
}

#[test]
fn response_holds_status_data_and_message() {
    let ok = ApiResponse::new(200, vec![1, 2], "");
    assert_eq!(ok, ApiResponse { status: 200, data: vec![1, 2], error_message: String::new() });
    let missing = ApiResponse::new(404, Vec::<i32>::new(), "Not found");
    assert_eq!(missing.status, 404);
    assert_eq!(missing.data, Vec::<i32>::new());
    assert_eq!(missing.error_message, "Not found");
}

#[test]
fn sorted_copy_ascends_and_keeps_every_element() {
    assert_eq!(sorted_copy(&vec![3, 1, 2]), vec![1, 2, 3]);
    assert_eq!(sorted_copy(&vec![2, 1, 2, -4, i32::MAX, i32::MIN, 1]), vec![i32::MIN, -4, 1, 1, 2, 2, i32::MAX]);
    assert_eq!(sorted_copy(&Vec::new()), Vec::<i32>::new());
    assert!(same_sequence(&vec![1, 2], &vec![1, 2]));
    assert!(!same_sequence(&vec![1, 2], &vec![2, 1]));
    assert!(!same_sequence(&vec![1, 2], &vec![1, 2, 3]));
    assert!(same_sequence(&Vec::new(), &Vec::new()));
}

#[test]
fn rows_are_found_by_their_id() {
    let products = vec![
        Product { id: 4, name: "rice".to_string(), group_id: 1 },
        Product { id: 9, name: "soup".to_string(), group_id: 1 },
        Product { id: 4, name: "bread".to_string(), group_id: 2 },
    ];
    assert_eq!(position_of_id(&products, 4), 0);
    assert_eq!(position_of_id(&products, 9), 1);
    assert_eq!(position_of_id(&products, 5), 3);
    assert!(contains_id(&products, 9));
    assert!(!contains_id(&products, 5));
    assert_eq!(products[1].id(), 9);
    assert!(ProductService::exists_by_id(&products, 4));
    assert!(!ProductService::exists_by_id(&products, 1));
    assert_eq!(ProductService::get_all_products(&products), products);
    assert_eq!(
        ProductDto::from(products[1].clone()),
        ProductDto { id: 9, name: "soup".to_string(), group_id: 1 }
    );
    assert_eq!(CreateProductDto { name: "tea".to_string(), group_id: 1 }.group_id, 1);
}

#[test]
fn records_are_shown_with_all_their_fields() {
    assert_eq!(
        CustomerDto::from(canteen::customer::Model { id: 1, user_id: 2, balance: -3 }),
        CustomerDto { id: 1, user_id: 2, balance: -3 }
    );
    assert_eq!(CreateCustomerDto { user_id: 2, balance: 0 }.user_id, 2);
    assert_eq!(
        ActiveSessionDto::from(ActiveSession { id: 1, user_id: 2, group_id: 3 }),
        ActiveSessionDto { id: 1, user_id: 2, group_id: 3 }
    );
    assert_eq!(CreateActiveSessionDto { user_id: 2, group_id: 3 }.group_id, 3);
    let order = Order {
        id: 1,
        is_deleted: true,
        deleted_by: 5,
        created_date: at(10),
        last_modification_date: at(20),
        group_id: 3,
    };
    assert_eq!(
        OrderDto::from(order),
        OrderDto {
            id: 1,
            is_deleted: true,
            deleted_by: 5,
            created_date: at(10),
            last_modification_date: at(20),
            group_id: 3,
        }
    );
    assert_eq!(order.id(), 1);
    let draft = CreateOrderDto {
        is_deleted: false,
        deleted_by: 0,
        created_date: at(10),
        last_modification_date: at(10),
        group_id: 3,
    };
    assert_eq!(draft.created_date, draft.last_modification_date);
    assert_eq!(
        OrderDetailsDto::from(OrderDetails { id: 1, order_id: 2, stock_id: 3 }),
        OrderDetailsDto { id: 1, order_id: 2, stock_id: 3 }
    );
    assert_eq!(CreateOrderDetailsDto { order_id: 2, stock_id: 3 }.stock_id, 3);
    assert_eq!(
        OrderCustomerDto::from(canteen::order_customer::Model { order_id: 2, customer_id: 3 }),
        OrderCustomerDto { order_id: 2, customer_id: 3 }
    );
    assert_eq!(CreateOrderCustomerDto { order_id: 2, customer_id: 3 }.customer_id, 3);
    let entry = canteen::system_log::Model {
        id: 1,
        transaction_type: "invoice".to_string(),
        description: "created".to_string(),
        date: at(30),
        user_id: 2,
        group_id: 3,
    };
    assert_eq!(
        SystemLogDto::from(entry.clone()),
        SystemLogDto {
            id: 1,
            transaction_type: "invoice".to_string(),
            description: "created".to_string(),
            date: at(30),
            user_id: 2,
            group_id: 3,
        }
    );
    assert_eq!(entry.id(), 1);
    let new_entry = CreateSystemLogDto {
        transaction_type: "order".to_string(),
        description: "deleted".to_string(),
        date: at(40),
        user_id: 2,
        group_id: 3,
    };
    assert_eq!(new_entry.description, "deleted");
}
