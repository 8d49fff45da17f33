use invoice::model::{Instance, Position};

fn company() -> Instance {
    Instance {
        name: String::from("Company GmbH"),
        street: String::from("Companystreet 1"),
        postal_code: String::from("12345"),
        city: String::from("Companycity"),
    }
}

#[test]
fn oneliner_joins_fields_in_fixed_order() {
    let inst = company();
    assert_eq!(
        inst.oneliner(),
        "Company GmbH - Companystreet 1 - 12345 Companycity"
    );
}

#[test]
fn oneliner_of_empty_fields() {
    let inst = Instance {
        name: String::new(),
        street: String::new(),
        postal_code: String::new(),
        city: String::new(),
    };
    assert_eq!(inst.oneliner(), " -  -  ");
}

#[test]
fn layout_lines_are_name_street_city() {
    let inst = company();
    let lines = inst.layout_lines();
    assert_eq!(lines.len(), 3);
    assert_eq!(lines[0], "Company GmbH");
    assert_eq!(lines[1], "Companystreet 1");
    assert_eq!(lines[2], "Companycity");
}

#[test]
fn display_name_is_the_name() {
    let inst = company();
    assert_eq!(inst.display_name(), "Company GmbH");
}

#[test]
fn clone_keeps_every_field() {
    let inst = company();
    let copy = inst.clone();
    assert_eq!(copy.name, inst.name);
    assert_eq!(copy.street, inst.street);
    assert_eq!(copy.postal_code, inst.postal_code);
    assert_eq!(copy.city, inst.city);
}

#[test]
fn full_price_is_quantity_times_unit_price() {
    let pos = Position {
        name: String::from("Book"),
        quantity: 3,
        unit_price: 250,
    };
    assert_eq!(pos.calculate_full_price(), 750);
}

#[test]
fn full_price_of_one_book() {
    let pos = Position {
        name: String::from("Book"),
        quantity: 1,
        unit_price: 10,
    };
    assert_eq!(pos.calculate_full_price(), 10);
}

#[test]
fn full_price_of_zero_quantity() {
    let pos = Position {
        name: String::from("Book"),
        quantity: 0,
        unit_price: 999,
    };
    assert_eq!(pos.calculate_full_price(), 0);
}

#[test]
fn full_price_of_largest_inputs_does_not_overflow() {
    let pos = Position {
        name: String::from("Bulk"),
        quantity: u32::MAX,
        unit_price: u32::MAX,
    };
    assert_eq!(
        pos.calculate_full_price(),
        (u32::MAX as u64) * (u32::MAX as u64)
    );
}
