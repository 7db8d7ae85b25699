use ant_farmer::{AntFarmer, Dialect};

#[test]
fn test_basic_create_table() {
    let sql = r#"cReAtE tAbLe operators_create_consumers (operator_api_key_id    int(11)    NOT NULL, operator_ip_address_id int(11)   nOt NuLl, create_consumers JSON nOt NuLl, created_date datetime nOt NuLl dEfAuLt CURRENT_TIMESTAMP());"#;
    let ant_farmer = AntFarmer::from(Dialect::MySql);
    let expected = r#"CREATE TABLE operators_create_consumers (
    operator_api_key_id    INT(11)  NOT NULL                            
  , operator_ip_address_id INT(11)  NOT NULL                            
  , create_consumers       JSON     NOT NULL                            
  , created_date           datetime NOT NULL DEFAULT CURRENT_TIMESTAMP()
)
;"#;

    let result = ant_farmer.mierenneuke(sql).unwrap();

    assert_eq!(result, expected);
}

#[test]
fn test_create_table_null() {
    let sql = r#"cReAtE tAbLe operators_create_consumers (operator_api_key_id    int(11)    NOT NULL, operator_ip_address_id int(11)   nOt NuLl, create_consumers JSON NuLl, created_date datetime nOt NuLl dEfAuLt CURRENT_TIMESTAMP());"#;
    let ant_farmer = AntFarmer::from(Dialect::MySql);
    let expected = r#"CREATE TABLE operators_create_consumers (
    operator_api_key_id    INT(11)  NOT NULL                            
  , operator_ip_address_id INT(11)  NOT NULL                            
  , create_consumers       JSON         NULL                            
  , created_date           datetime NOT NULL DEFAULT CURRENT_TIMESTAMP()
)
;"#;

    let result = ant_farmer.mierenneuke(sql).unwrap();

    assert_eq!(result, expected);
}

#[test]
fn test_create_table_constraints() {
    let sql = r#"cReAtE tAbLe operators_create_consumers (operator_api_key_id    int(11)    NOT NULL, operator_ip_address_id int(11)   nOt NuLl, create_consumers JSON NuLl, created_date datetime nOt NuLl dEfAuLt CURRENT_TIMESTAMP() , CONSTRAINT fk_operators_create_consumers_operator_api_key_id FOREIGN KEY (operator_api_key_id ) REFERENCES api_keys (id) , CONSTRAINT fk_operators_create_consumers_operator_ip_address_id  FOREIGN KEY (operator_ip_address_id ) REFERENCES operator_ip_addresses (id) , CONSTRAINT uq_operator_api_key_id_operator_ip_address_id UNIQUE (operator_api_key_id, operator_ip_address_id));"#;
    let ant_farmer = AntFarmer::from(Dialect::MySql);
    let expected = r#"CREATE TABLE operators_create_consumers (
    operator_api_key_id    INT(11)  NOT NULL                            
  , operator_ip_address_id INT(11)  NOT NULL                            
  , create_consumers       JSON         NULL                            
  , created_date           datetime NOT NULL DEFAULT CURRENT_TIMESTAMP()
  , CONSTRAINT fk_operators_create_consumers_operator_api_key_id    FOREIGN KEY (operator_api_key_id)                         REFERENCES api_keys              (id)
  , CONSTRAINT fk_operators_create_consumers_operator_ip_address_id FOREIGN KEY (operator_ip_address_id)                      REFERENCES operator_ip_addresses (id)
  , CONSTRAINT uq_operator_api_key_id_operator_ip_address_id        UNIQUE      (operator_api_key_id, operator_ip_address_id)
)
;"#;

    let result = ant_farmer.mierenneuke(sql).unwrap();

    assert_eq!(result, expected);
}
