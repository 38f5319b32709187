use zero_pass::{EnUs, Languages, Messages, PtBr};

#[test]
fn english_table_has_the_fixed_strings() {
    let m = Messages::new(Languages::EnUs);
    assert_eq!(m.ask_menu_method, "Choose a cryptography method");
    assert_eq!(m.ask_unique_pass, "Type your unique password");
    assert_eq!(m.ask_variable_pass, "Type the variable password");
    assert_eq!(m.ask_get_sys_default_method, "Use the system's default method? ");
    assert_eq!(m.ask_repeat_method_times, "Number of repetitions: ");
    assert_eq!(
        m.ask_create_file,
        "You don't have a configuration file, want to create one? "
    );
    assert_eq!(m.error_input, "Failed to read input");
    assert_eq!(m.error_invalid_character, "The character is invalid");
    assert_eq!(m.error_parse, "Erro: the value must be a number");
    assert_eq!(m.error_unknown_method, "is not a known cryptography method");
    assert_eq!(m.error_number_parse, "This number is invalid");
    assert_eq!(m.error_file_open, "Unable to open the file");
    assert_eq!(m.error_file_read, "Unable to read the file");
    assert_eq!(m.error_file_parse, "Error while parsing TOML file");
    assert_eq!(
        m.error_file_prop,
        "Unable to read prop \"default_method\" from config file"
    );
    assert_eq!(m.final_result, "The password is on the clipboard.");
    assert_eq!(m.final_result_show, "The generated password is ");
}

#[test]
fn portuguese_table_has_the_fixed_strings() {
    let m = Messages::new(Languages::PtBr);
    assert_eq!(m.ask_menu_method, "Escolha um método de criptografia");
    assert_eq!(m.ask_unique_pass, "Digite a senha única");
    assert_eq!(m.ask_variable_pass, "Digite a senha variável");
    assert_eq!(m.ask_get_sys_default_method, "Usar o método padrão do sistema? ");
    assert_eq!(m.ask_repeat_method_times, "Número de repetições: ");
    assert_eq!(
        m.ask_create_file,
        "Você não tem um arquivo de configuração, quer criar um? "
    );
    assert_eq!(m.error_input, "Falha ao ler a entrada!");
    assert_eq!(m.error_invalid_character, "O caractere inserido é inválido");
    assert_eq!(m.error_parse, "Erro: O valor inserido tem que ser um número");
    assert_eq!(m.error_unknown_method, "não é um método de criptografia conhecido");
    assert_eq!(m.error_number_parse, "O número inserido é inválido");
    assert_eq!(m.error_file_open, "Não foi possível abrir o arquivo de configuração");
    assert_eq!(m.error_file_read, "Não foi possível ler");
    assert_eq!(m.error_file_parse, "Erro ao ler o arquivo no formato TOML");
    assert_eq!(
        m.error_file_prop,
        "não foi ler a propriedade \"default_method\"\n                        do arquivo de configuração"
    );
    assert_eq!(m.final_result, "Senha copiada para a área de transferência.");
    assert_eq!(m.final_result_show, "A senha gerada é ");
}

#[test]
fn wrapper_structs_match_their_tables() {
    let en = EnUs::default().0;
    let pt = PtBr::default().0;
    assert_eq!(en, Messages::new(Languages::EnUs));
    assert_eq!(pt, Messages::new(Languages::PtBr));
    assert_ne!(en, pt);
}

#[test]
fn default_messages_are_english() {
    assert_eq!(Messages::default(), Messages::new(Languages::EnUs));
}
