use clean_layers::application::DataDto;
use clean_layers::driver::{DataRepository, Pool};
use clean_layers::form::UserInputForm;
use clean_layers::kernel::{Data, DestructData, Repository};

#[test]
fn new_keeps_both_fields() {
    let parts = Data::new("abc123", "test man").into_destruct();
    assert_eq!(parts.id, "abc123");
    assert_eq!(parts.name, "test man");
}

#[test]
fn new_takes_owned_and_borrowed_text() {
    let parts = Data::new(String::from("owned"), "borrowed").into_destruct();
    assert_eq!(parts.id, "owned");
    assert_eq!(parts.name, "borrowed");
}

#[test]
fn new_does_not_swap_fields() {
    let parts = Data::new("first", "second").into_destruct();
    assert_ne!(parts.id, "second");
    assert_ne!(parts.name, "first");
}

#[test]
fn new_accepts_empty_fields() {
    let parts = Data::new("", "").into_destruct();
    assert_eq!(parts.id, "");
    assert_eq!(parts.name, "");
}

#[test]
fn freeze_undoes_into_destruct() {
    let parts = Data::new("abc123", "test man").into_destruct();
    let again = parts.freeze().into_destruct();
    assert_eq!(again.id, "abc123");
    assert_eq!(again.name, "test man");
}

#[test]
fn freeze_builds_from_public_fields() {
    let parts = DestructData { id: String::from("k-1"), name: String::from("n-1") };
    let data = parts.freeze();
    assert_eq!(format!("{:?}", data), "Data { id: \"k-1\", name: \"n-1\" }");
}

#[test]
fn data_clone_is_equal_and_independent() {
    let data = Data::new("abc123", "test man");
    let copy = data.clone();
    let first = data.into_destruct();
    let second = copy.into_destruct();
    assert_eq!(first.id, second.id);
    assert_eq!(first.name, second.name);
}

#[test]
fn dto_from_data_keeps_fields() {
    let dto = DataDto::from(Data::new("abc123", "test man"));
    assert_eq!(dto.id, "abc123");
    assert_eq!(dto.name, "test man");
}

#[test]
fn dto_from_form_keeps_fields() {
    let form = UserInputForm { id: String::from("abc123"), name: String::from("test man") };
    let dto: DataDto = form.into();
    assert_eq!(dto.id, "abc123");
    assert_eq!(dto.name, "test man");
}

#[test]
fn dto_round_trips_through_entity() {
    for (id, name) in [("abc123", "test man"), ("", ""), ("a\"b", "c\\d"), ("\u{1F600}", "\n\t")] {
        let dto = DataDto { id: String::from(id), name: String::from(name) };
        let back = DataDto::from(dto.into_entity());
        assert_eq!(back.id, id);
        assert_eq!(back.name, name);
    }
}

#[test]
fn dto_clone_is_equal() {
    let dto = DataDto { id: String::from("abc123"), name: String::from("test man") };
    let copy = dto.clone();
    assert_eq!(copy.id, dto.id);
    assert_eq!(copy.name, dto.name);
}

#[test]
fn form_clone_is_equal() {
    let form = UserInputForm { id: String::from("abc123"), name: String::from("test man") };
    let copy = form.clone();
    assert_eq!(copy.id, form.id);
    assert_eq!(copy.name, form.name);
}

#[test]
fn stand_in_repository_accepts_every_record() {
    let repo = DataRepository(Pool);
    assert_eq!(repo.create(&Data::new("abc123", "test man")), Ok(()));
    assert_eq!(repo.create(&Data::new("", "")), Ok(()));
    assert_eq!(repo.clone().create(&Data::new("x", "y")), Ok(()));
}
