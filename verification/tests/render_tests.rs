use invoice::model::Instance;
use invoice::render::output_path;

fn company() -> Instance {
    Instance {
        name: String::from("Company GmbH"),
        street: String::from("Companystreet 1"),
        postal_code: String::from("12345"),
        city: String::from("Companycity"),
    }
}

#[test]
fn output_path_is_under_target() {
    assert_eq!(output_path("invoice.pdf"), "target/invoice.pdf");
}

#[test]
fn output_path_of_empty_name() {
    assert_eq!(output_path(""), "target/");
}

#[test]
fn oneliner_element_can_be_built() {
    // The element is opaque; this checks that the genpdf calls behind
    // `get_oneliner` accept the computed string.
    let _text = company().get_oneliner();
}

#[test]
fn layout_block_can_be_built() {
    let (_layout, _padding) = company().get_layout();
}
