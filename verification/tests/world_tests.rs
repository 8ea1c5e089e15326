use std::cell::RefCell;
use std::rc::Rc;
use textworld::builders::RoomBuilder;
use textworld::data::{Exit, ExitName, Item, Location};
use textworld::engine::{BindingError, Fault, ScriptError};
use textworld::scripting::{hello_line, hello_script, init, init_outcome, run_script};

#[test]
fn room_without_name_is_refused() {
    let r = RoomBuilder::new().description(vec![("look".to_string(), "dark".to_string())]).build();
    assert!(matches!(r, Err("Room name is required")));
    assert!(matches!(RoomBuilder::new().build(), Err("Room name is required")));
}

#[test]
fn room_without_description_is_refused() {
    let r = RoomBuilder::new().name("Cellar").build();
    assert!(matches!(r, Err("Room description is required")));
}

#[test]
fn room_is_built_from_its_parts() {
    let exit = Exit {
        name: "north".to_string(),
        location: Location { zone_name: "Keep".to_string(), room_name: "Hall".to_string() },
        hidden: true,
    };
    let room = RoomBuilder::new()
        .name("Old")
        .name("Cellar")
        .description(vec![("look".to_string(), "dark".to_string())])
        .actions(vec!["dig".to_string()])
        .exits(vec![exit])
        .build();
    let room = match room {
        Ok(room) => room,
        Err(e) => panic!("{}", e),
    };
    assert_eq!(room.name, "Cellar");
    assert_eq!(room.descriptions, vec![("look".to_string(), "dark".to_string())]);
    assert_eq!(room.actions, Some(vec!["dig".to_string()]));
    let exits = room.exits.unwrap();
    assert_eq!(exits.len(), 1);
    assert_eq!(exits[0].name, "north");
    assert_eq!(exits[0].location.zone_name, "Keep");
    assert_eq!(exits[0].location.room_name, "Hall");
    assert!(exits[0].hidden);
}

#[test]
fn room_without_options_has_none() {
    let room = RoomBuilder::new().name("Hall").description(Vec::new()).build();
    let room = match room {
        Ok(room) => room,
        Err(e) => panic!("{}", e),
    };
    assert_eq!(room.name, "Hall");
    assert!(room.descriptions.is_empty());
    assert!(room.actions.is_none());
    assert!(room.exits.is_none());
}

#[test]
fn default_item_is_empty() {
    let item = Item::default();
    assert_eq!(item.name, "");
    assert!(item.descriptions.is_empty());
    assert!(!item.usable);
    assert!(!item.consumable);
    assert_eq!(item.level, 0);
    assert_eq!(item.value, 0);
}

#[test]
fn exit_names_compare() {
    assert_eq!(ExitName::North, ExitName::North);
    assert_ne!(ExitName::North, ExitName::South);
    assert_ne!(ExitName::East, ExitName::West);
}

#[test]
fn hello_texts_exact() {
    assert_eq!(hello_line("Frank"), "hello, Frank!");
    assert_eq!(hello_script("Frank"), "my_module.hello('Frank')");
    assert_eq!(hello_line(""), "hello, !");
}

#[test]
fn greeting_module_greets() {
    let lines: Rc<RefCell<Vec<String>>> = Rc::new(RefCell::new(Vec::new()));
    let sink = lines.clone();
    let lua = match init(move |line: String| sink.borrow_mut().push(line)) {
        Ok(lua) => lua,
        Err(e) => panic!("{:?}", e),
    };
    assert!(run_script(&lua, "Frank".to_string()).is_ok());
    assert!(run_script(&lua, "Ada".to_string()).is_ok());
    assert_eq!(*lines.borrow(), vec!["hello, Frank!".to_string(), "hello, Ada!".to_string()]);
}

#[test]
fn greeting_script_with_a_quote_does_not_compile() {
    let lua = match init(|_line: String| ()) {
        Ok(lua) => lua,
        Err(e) => panic!("{:?}", e),
    };
    let r = run_script(&lua, "O'Brien".to_string());
    assert!(matches!(r, Err(ScriptError::Compile(_))));
    assert!(run_script(&lua, "Brien".to_string()).is_ok());
}

#[test]
fn default_records_are_empty() {
    let exit = Exit::default();
    assert_eq!(exit.name, "");
    assert_eq!(exit.location.zone_name, "");
    assert_eq!(exit.location.room_name, "");
    assert!(!exit.hidden);
    let room = textworld::data::Room::default();
    assert_eq!(room.name, "");
    assert!(room.descriptions.is_empty());
    assert!(room.actions.is_none());
    assert!(room.exits.is_none());
    let zone = textworld::data::Zone::default();
    assert_eq!(zone.name, "");
    assert!(zone.rooms.is_none());
    let player = textworld::data::Player::default();
    assert_eq!(player.score, 0);
    assert_eq!(player.gold, 0);
    assert_eq!(player.description, "");
    let world = textworld::data::World::default();
    assert!(world.players.is_empty());
    assert!(world.zones.is_empty());
}

#[test]
fn greeting_module_is_bound_on_the_given_engine() {
    let lines: Rc<RefCell<Vec<String>>> = Rc::new(RefCell::new(Vec::new()));
    let sink = lines.clone();
    let lua = mlua::Lua::new();
    let bound = textworld::scripting::create_my_module(&lua, move |line: String| {
        sink.borrow_mut().push(line)
    });
    assert!(bound.is_ok());
    assert!(run_script(&lua, "Grace".to_string()).is_ok());
    assert_eq!(*lines.borrow(), vec!["hello, Grace!".to_string()]);
}

#[test]
fn init_outcome_maps_each_outcome() {
    let refused = init_outcome(Err(Fault { from_compiling: false, message: "mem".to_string() }));
    assert!(matches!(refused, Err(BindingError::Rejected(m)) if m == "mem"));
    let unbound = init_outcome(Ok((
        mlua::Lua::new(),
        Err(BindingError::FunctionRejected("f".to_string())),
    )));
    assert!(matches!(unbound, Err(BindingError::FunctionRejected(m)) if m == "f"));
    let made = init_outcome(Ok((mlua::Lua::new(), Ok(()))));
    assert!(made.is_ok());
}
