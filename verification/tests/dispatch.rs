use users_api::dispatch::plan;
use users_api::dispatch::respond;
use users_api::dispatch::Response;
use users_api::dispatch::Step;
use users_api::error::ApiError;
use users_api::error::Operation;
use users_api::error::StoreError;
use users_api::model::GetUser;
use users_api::model::NewUser;
use users_api::model::ReturnUser;
use users_api::model::UpdateUser;
use users_api::model::User;
use users_api::model::UserVec;
use users_api::query::SetParam;
use users_api::query::StoreCall;
use users_api::query::StoreOutcome;
use users_api::query::UniqueWhere;
use users_api::router::Method;
use users_api::router::Route;
use users_api::service::Service;
use users_api::store::MemoryStore;

fn body(name: &str, username: &str, email: &str, password: &str) -> NewUser {
    NewUser {
        name: name.to_string(),
        username: username.to_string(),
        email: email.to_string(),
        password: password.to_string(),
    }
}

fn cy() -> User {
    User {
        id: "c3".to_string(),
        name: "Cy".to_string(),
        username: "cy3".to_string(),
        email: "cy@x.com".to_string(),
        password: "r".to_string(),
    }
}

const OPERATIONS: [Operation; 5] = [
    Operation::List,
    Operation::Get,
    Operation::Create,
    Operation::Update,
    Operation::Delete,
];

#[test]
fn plan_answers_the_root_at_once() {
    assert_eq!(
        plan(Route::Index, None),
        Step::Reply(Response::Running("API is running".to_string()))
    );
}

#[test]
fn plan_answers_an_unmatched_request_at_once() {
    assert_eq!(plan(Route::Unmatched, None), Step::Reply(Response::NoRoute));
    assert_eq!(
        plan(Route::Unmatched, Some(body("a", "b", "c", "d"))),
        Step::Reply(Response::NoRoute)
    );
}

#[test]
fn plan_of_list_finds_all() {
    assert_eq!(plan(Route::ListUsers, None), Step::Ask(Operation::List, StoreCall::FindMany));
}

#[test]
fn plan_of_get_finds_by_id() {
    assert_eq!(
        plan(Route::GetUser("k9".to_string()), None),
        Step::Ask(
            Operation::Get,
            StoreCall::FindUnique(UniqueWhere::IdEquals("k9".to_string()))
        )
    );
}

#[test]
fn plan_of_create_hands_the_body_on() {
    assert_eq!(
        plan(Route::CreateUser, Some(body("Ann", "ann1", "ann@x.com", "p"))),
        Step::Ask(Operation::Create, StoreCall::Create(body("Ann", "ann1", "ann@x.com", "p")))
    );
}

#[test]
fn plan_of_update_sets_every_field() {
    assert_eq!(
        plan(Route::UpdateUser("k9".to_string()), Some(body("N", "U", "E", "P"))),
        Step::Ask(
            Operation::Update,
            StoreCall::Update(
                UniqueWhere::IdEquals("k9".to_string()),
                vec![
                    SetParam::Name("N".to_string()),
                    SetParam::Username("U".to_string()),
                    SetParam::Email("E".to_string()),
                    SetParam::Password("P".to_string()),
                ]
            )
        )
    );
}

#[test]
fn plan_of_delete_selects_by_id() {
    assert_eq!(
        plan(Route::DeleteUser("k9".to_string()), None),
        Step::Ask(Operation::Delete, StoreCall::Delete(UniqueWhere::IdEquals("k9".to_string())))
    );
}

#[test]
fn plan_refuses_create_and_update_without_a_body() {
    assert_eq!(plan(Route::CreateUser, None), Step::Reply(Response::BadRequest));
    assert_eq!(
        plan(Route::UpdateUser("k9".to_string()), None),
        Step::Reply(Response::BadRequest)
    );
}

#[test]
fn respond_shapes_each_success() {
    assert_eq!(
        respond(Operation::List, StoreOutcome::Many(vec![cy()])),
        Response::Users(vec![UserVec {
            id: "c3".to_string(),
            name: "Cy".to_string(),
            username: "cy3".to_string(),
            email: "cy@x.com".to_string(),
        }])
    );
    assert_eq!(
        respond(Operation::Get, StoreOutcome::Maybe(Some(cy()))),
        Response::User(GetUser {
            name: "Cy".to_string(),
            username: "cy3".to_string(),
            email: "cy@x.com".to_string(),
        })
    );
    assert_eq!(
        respond(Operation::Create, StoreOutcome::One(cy())),
        Response::Created(ReturnUser {
            name: "Cy".to_string(),
            username: "cy3".to_string(),
            email: "cy@x.com".to_string(),
            message: "User created successfully".to_string(),
        })
    );
    assert_eq!(
        respond(Operation::Update, StoreOutcome::One(cy())),
        Response::Updated(UpdateUser {
            name: "Cy".to_string(),
            username: "cy3".to_string(),
            email: "cy@x.com".to_string(),
            password: "r".to_string(),
        })
    );
    assert_eq!(
        respond(Operation::Delete, StoreOutcome::One(cy())),
        Response::Deleted(ReturnUser {
            name: "Cy".to_string(),
            username: "cy3".to_string(),
            email: "cy@x.com".to_string(),
            message: "User deleted successfully".to_string(),
        })
    );
}

#[test]
fn respond_to_a_missing_record() {
    assert_eq!(
        respond(Operation::Get, StoreOutcome::Maybe(None)),
        Response::Failed(ApiError::NotFound)
    );
    for op in [Operation::Get, Operation::Update, Operation::Delete] {
        assert_eq!(
            respond(op, StoreOutcome::Failed(StoreError::RecordNotFound)),
            Response::Failed(ApiError::NotFound)
        );
    }
    for op in [Operation::List, Operation::Create] {
        assert_eq!(
            respond(op, StoreOutcome::Failed(StoreError::RecordNotFound)),
            Response::Failed(ApiError::Internal)
        );
    }
}

#[test]
fn respond_to_any_other_failure_is_internal() {
    for op in OPERATIONS {
        for e in [
            StoreError::Connectivity,
            StoreError::Constraint,
            StoreError::Timeout,
            StoreError::Other,
        ] {
            assert_eq!(
                respond(op, StoreOutcome::Failed(e)),
                Response::Failed(ApiError::Internal)
            );
        }
    }
}

#[test]
fn respond_to_an_outcome_of_another_shape_is_internal() {
    let internal = Response::Failed(ApiError::Internal);
    for op in OPERATIONS {
        if op != Operation::List {
            assert_eq!(respond(op, StoreOutcome::Many(Vec::new())), internal);
        }
        if op != Operation::Get {
            assert_eq!(respond(op, StoreOutcome::Maybe(Some(cy()))), internal);
            assert_eq!(respond(op, StoreOutcome::Maybe(None)), internal);
        }
    }
    assert_eq!(respond(Operation::List, StoreOutcome::One(cy())), internal);
    assert_eq!(respond(Operation::Get, StoreOutcome::One(cy())), internal);
}

#[test]
fn response_status_codes() {
    assert_eq!(Response::Running("API is running".to_string()).status(), 200);
    assert_eq!(Response::Users(Vec::new()).status(), 200);
    assert_eq!(respond(Operation::Get, StoreOutcome::Maybe(Some(cy()))).status(), 200);
    assert_eq!(respond(Operation::Create, StoreOutcome::One(cy())).status(), 200);
    assert_eq!(respond(Operation::Update, StoreOutcome::One(cy())).status(), 200);
    assert_eq!(respond(Operation::Delete, StoreOutcome::One(cy())).status(), 200);
    assert_eq!(Response::Failed(ApiError::NotFound).status(), 404);
    assert_eq!(Response::Failed(ApiError::Internal).status(), 500);
    assert_eq!(Response::NoRoute.status(), 404);
    assert_eq!(Response::BadRequest.status(), 400);
}

#[test]
fn execute_answers_each_call_in_its_shape() {
    let mut store = MemoryStore::new();
    assert_eq!(store.execute(StoreCall::FindMany), StoreOutcome::Many(Vec::new()));
    let ann = User {
        id: "0".to_string(),
        name: "Ann".to_string(),
        username: "ann1".to_string(),
        email: "ann@x.com".to_string(),
        password: "p".to_string(),
    };
    assert_eq!(
        store.execute(StoreCall::Create(body("Ann", "ann1", "ann@x.com", "p"))),
        StoreOutcome::One(ann.clone())
    );
    let zero = UniqueWhere::IdEquals("0".to_string());
    let one = UniqueWhere::IdEquals("1".to_string());
    assert_eq!(
        store.execute(StoreCall::FindUnique(zero.clone())),
        StoreOutcome::Maybe(Some(ann.clone()))
    );
    assert_eq!(store.execute(StoreCall::FindUnique(one.clone())), StoreOutcome::Maybe(None));
    let renamed = User { name: "Anna".to_string(), ..ann.clone() };
    assert_eq!(
        store.execute(StoreCall::Update(zero.clone(), vec![SetParam::Name("Anna".to_string())])),
        StoreOutcome::One(renamed.clone())
    );
    assert_eq!(
        store.execute(StoreCall::Update(one.clone(), Vec::new())),
        StoreOutcome::Failed(StoreError::RecordNotFound)
    );
    assert_eq!(
        store.execute(StoreCall::Delete(one)),
        StoreOutcome::Failed(StoreError::RecordNotFound)
    );
    assert_eq!(store.execute(StoreCall::Delete(zero)), StoreOutcome::One(renamed));
    assert_eq!(store.execute(StoreCall::FindMany), StoreOutcome::Many(Vec::new()));
    let mut full = MemoryStore::starting_at(u64::MAX);
    assert_eq!(
        full.execute(StoreCall::Create(body("a", "b", "c", "d"))),
        StoreOutcome::Failed(StoreError::Constraint)
    );
}

#[test]
fn handle_serves_a_whole_exchange() {
    let mut service = Service::new();
    assert_eq!(
        service.handle(Method::Get, "/", None),
        Response::Running("API is running".to_string())
    );
    assert_eq!(service.handle(Method::Get, "/users", None), Response::Users(Vec::new()));
    assert_eq!(
        service.handle(Method::Post, "/users/create", Some(body("Ann", "ann1", "ann@x.com", "p"))),
        Response::Created(ReturnUser {
            name: "Ann".to_string(),
            username: "ann1".to_string(),
            email: "ann@x.com".to_string(),
            message: "User created successfully".to_string(),
        })
    );
    assert_eq!(
        service.handle(Method::Get, "/users", None),
        Response::Users(vec![UserVec {
            id: "0".to_string(),
            name: "Ann".to_string(),
            username: "ann1".to_string(),
            email: "ann@x.com".to_string(),
        }])
    );
    assert_eq!(
        service.handle(Method::Get, "/users/0", None),
        Response::User(GetUser {
            name: "Ann".to_string(),
            username: "ann1".to_string(),
            email: "ann@x.com".to_string(),
        })
    );
    assert_eq!(
        service.handle(Method::Put, "/users/update/0", Some(body("Anna", "anna", "a@y.org", "s"))),
        Response::Updated(UpdateUser {
            name: "Anna".to_string(),
            username: "anna".to_string(),
            email: "a@y.org".to_string(),
            password: "s".to_string(),
        })
    );
    assert_eq!(
        service.handle(Method::Delete, "/users/delete/0", None),
        Response::Deleted(ReturnUser {
            name: "Anna".to_string(),
            username: "anna".to_string(),
            email: "a@y.org".to_string(),
            message: "User deleted successfully".to_string(),
        })
    );
    assert_eq!(
        service.handle(Method::Get, "/users/0", None),
        Response::Failed(ApiError::NotFound)
    );
}

#[test]
fn handle_reports_what_is_missing_and_goes_on() {
    let mut service = Service::new();
    assert_eq!(
        service.handle(Method::Delete, "/users/delete/3", None),
        Response::Failed(ApiError::NotFound)
    );
    assert_eq!(
        service.handle(Method::Put, "/users/update/3", Some(body("a", "b", "c", "d"))),
        Response::Failed(ApiError::NotFound)
    );
    assert_eq!(
        service.handle(Method::Get, "/users/3", None),
        Response::Failed(ApiError::NotFound)
    );
    assert_eq!(service.handle(Method::Get, "/nothing", None), Response::NoRoute);
    assert_eq!(service.handle(Method::Delete, "/users", None), Response::NoRoute);
    assert_eq!(service.handle(Method::Post, "/users/create", None), Response::BadRequest);
    assert_eq!(service.handle(Method::Put, "/users/update/3", None), Response::BadRequest);
    assert_eq!(service.handle(Method::Get, "/users", None), Response::Users(Vec::new()));
    assert!(matches!(
        service.handle(Method::Post, "/users/create", Some(body("a", "b", "c", "d"))),
        Response::Created(_)
    ));
    assert_eq!(service.list().map(|v| v.len()), Ok(1));
}

#[test]
fn handle_is_internal_when_the_store_refuses() {
    let mut service = Service::starting_at(u64::MAX);
    assert_eq!(
        service.handle(Method::Post, "/users/create", Some(body("a", "b", "c", "d"))),
        Response::Failed(ApiError::Internal)
    );
}
