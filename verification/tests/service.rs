use user_lookup::{lookup_report, InMemoryUserRepository, User, UserRepository, UserService};

fn repository_with(users: &[(i32, &str)]) -> InMemoryUserRepository {
    let mut repository = InMemoryUserRepository::new();
    for (id, name) in users {
        repository.add_user(User::new(*id, name.to_string()));
    }
    repository
}

fn service_over(users: &[(i32, &str)]) -> UserService {
    let repository: Box<dyn UserRepository> = Box::new(repository_with(users));
    UserService::new(repository)
}

fn answer(service: &UserService, id: i32) -> Option<(i32, String)> {
    service.get_user_by_id(id).map(|user| (user.id(), user.name().to_string()))
}

#[test]
fn service_over_empty_repository_finds_nothing() {
    let service = service_over(&[]);
    assert_eq!(answer(&service, 1), None);
}

#[test]
fn service_finds_inserted_user() {
    let service = service_over(&[(1, "John Doe")]);
    assert_eq!(answer(&service, 1), Some((1, "John Doe".to_string())));
}

#[test]
fn service_gives_first_match() {
    let service = service_over(&[(1, "A"), (1, "B")]);
    assert_eq!(answer(&service, 1), Some((1, "A".to_string())));
}

#[test]
fn service_misses_other_identifier() {
    let service = service_over(&[(2, "X")]);
    assert_eq!(answer(&service, 1), None);
}

#[test]
fn service_answers_as_its_repository_does() {
    let users = [(3, "Ada"), (5, "Grace"), (3, "Edsger"), (-8, "Barbara")];
    let repository = repository_with(&users);
    let service = service_over(&users);
    for id in [-8, 0, 3, 4, 5, 6, i32::MIN, i32::MAX] {
        let direct = repository.find_user_by_id(id).map(|user| (user.id(), user.name().to_string()));
        assert_eq!(answer(&service, id), direct);
    }
}

#[test]
fn service_over_a_concrete_repository() {
    let service = UserService::new(Box::new(repository_with(&[(1, "A"), (2, "B")])));
    let found = service.get_user_by_id(2);
    assert_eq!(found.map(|user| user.name().to_string()), Some("B".to_string()));
    assert!(service.get_user_by_id(3).is_none());
}

#[test]
fn report_names_the_found_user() {
    let found = Some(User::new(1, "John Doe".to_string()));
    assert_eq!(lookup_report(&found), "User found: John Doe");
}

#[test]
fn report_says_when_nothing_was_found() {
    assert_eq!(lookup_report(&None), "User not found");
}

#[test]
fn report_keeps_the_name_as_it_is() {
    assert_eq!(lookup_report(&Some(User::new(9, String::new()))), "User found: ");
    let found = Some(User::new(9, "Zoë \"Z\" Åström".to_string()));
    assert_eq!(lookup_report(&found), "User found: Zoë \"Z\" Åström");
}

#[test]
fn report_of_a_lookup_through_the_service() {
    let service = service_over(&[(1, "John Doe")]);
    assert_eq!(lookup_report(&service.get_user_by_id(1)), "User found: John Doe");
    assert_eq!(lookup_report(&service.get_user_by_id(2)), "User not found");
}
