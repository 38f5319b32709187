//! The two locales the client speaks, and how a locale is chosen.

use vstd::prelude::*;

use crate::error::Error;
use crate::text::str_eq;

verus! {

/// The supported locales.
#[derive(Debug, Clone, Copy, PartialEq, Eq, Structural)]
pub enum Languages {
    PtBr,
    EnUs,
}

/// Which locale an environment value such as `LANG` selects:
/// the two recognized spellings pick their locale, anything else
/// falls back to English.
pub open spec fn lang_of_env(s: Seq<char>) -> Languages {
    if s == "pt_BR.UTF-8"@ {
        Languages::PtBr
    } else if s == "en_US.UTF-8"@ {
        Languages::EnUs
    } else {
        Languages::EnUs
    }
}

/// Which locale a configuration `lang` value selects: the variant
/// names themselves; anything else falls back to English.
pub open spec fn lang_of_config(s: Seq<char>) -> Languages {
    if s == "PtBr"@ {
        Languages::PtBr
    } else if s == "EnUs"@ {
        Languages::EnUs
    } else {
        Languages::EnUs
    }
}

/// Which locale a short lowercase name selects; unknown names fall
/// back to English.
pub open spec fn lang_of_name(s: Seq<char>) -> Languages {
    if s == "pt_br"@ {
        Languages::PtBr
    } else if s == "en_us"@ {
        Languages::EnUs
    } else {
        Languages::EnUs
    }
}

impl Default for Languages {
    /// English is the fallback locale.
    fn default() -> (r: Self)
        ensures
            r == Languages::EnUs,
    {
        Languages::EnUs
    }
}

impl From<String> for Languages {
    fn from(value: String) -> (r: Self) {
        if str_eq(value.as_str(), "pt_BR.UTF-8") {
            Languages::PtBr
        } else if str_eq(value.as_str(), "en_US.UTF-8") {
            Languages::EnUs
        } else {
            Languages::EnUs
        }
    }
}

impl vstd::std_specs::convert::FromSpecImpl<String> for Languages {
    open spec fn obeys_from_spec() -> bool {
        true
    }

    open spec fn from_spec(value: String) -> Self {
        lang_of_env(value@)
    }
}

impl core::str::FromStr for Languages {
    type Err = Error;

    fn from_str(lang: &str) -> (r: Result<Self, Error>) {
        Languages::parse_name(lang)
    }
}

impl Languages {
    /// Interpret a short lowercase locale name. Every input is
    /// accepted; unknown names select the English fallback.
    pub fn parse_name(lang: &str) -> (r: Result<Self, Error>)
        ensures
            r == Ok::<Languages, Error>(lang_of_name(lang@)),
    {
        if str_eq(lang, "pt_br") {
            Ok(Languages::PtBr)
        } else if str_eq(lang, "en_us") {
            Ok(Languages::EnUs)
        } else {
            Ok(Languages::EnUs)
        }
    }

    /// Interpret the `lang` value of the configuration file.
    pub fn from_config_name(s: &str) -> (r: Self)
        ensures
            r == lang_of_config(s@),
    {
        if str_eq(s, "PtBr") {
            Languages::PtBr
        } else if str_eq(s, "EnUs") {
            Languages::EnUs
        } else {
            Languages::EnUs
        }
    }
}

/// All user-facing strings of one locale.
#[derive(Debug, Clone, PartialEq)]
pub struct Messages<'a> {
    pub ask_unique_pass: &'a str,
    pub ask_variable_pass: &'a str,
    pub ask_get_sys_default_method: &'a str,
    pub ask_menu_method: &'a str,
    pub ask_repeat_method_times: &'a str,
    pub ask_create_file: &'a str,
    pub error_parse: &'a str,
    pub error_unknown_method: &'a str,
    pub error_number_parse: &'a str,
    pub error_file_open: &'a str,
    pub error_file_parse: &'a str,
    pub error_file_read: &'a str,
    pub error_file_prop: &'a str,
    pub error_input: &'a str,
    pub error_invalid_character: &'a str,
    pub final_result: &'a str,
    pub final_result_show: &'a str,
}

/// The table holds exactly the fixed English strings.
pub open spec fn is_en_us<'a>(m: Messages<'a>) -> bool {
    &&& m.ask_menu_method@ == "Choose a cryptography method"@
    &&& m.ask_unique_pass@ == "Type your unique password"@
    &&& m.ask_variable_pass@ == "Type the variable password"@
    &&& m.ask_get_sys_default_method@ == "Use the system's default method? "@
    &&& m.ask_repeat_method_times@ == "Number of repetitions: "@
    &&& m.ask_create_file@ == "You don't have a configuration file, want to create one? "@
    &&& m.error_input@ == "Failed to read input"@
    &&& m.error_invalid_character@ == "The character is invalid"@
    &&& m.error_parse@ == "Erro: the value must be a number"@
    &&& m.error_unknown_method@ == "is not a known cryptography method"@
    &&& m.error_number_parse@ == "This number is invalid"@
    &&& m.error_file_open@ == "Unable to open the file"@
    &&& m.error_file_read@ == "Unable to read the file"@
    &&& m.error_file_parse@ == "Error while parsing TOML file"@
    &&& m.error_file_prop@ == "Unable to read prop \"default_method\" from config file"@
    &&& m.final_result@ == "The password is on the clipboard."@
    &&& m.final_result_show@ == "The generated password is "@
}

/// The table holds exactly the fixed Portuguese strings.
pub open spec fn is_pt_br<'a>(m: Messages<'a>) -> bool {
    &&& m.ask_menu_method@ == "Escolha um método de criptografia"@
    &&& m.ask_unique_pass@ == "Digite a senha única"@
    &&& m.ask_variable_pass@ == "Digite a senha variável"@
    &&& m.ask_get_sys_default_method@ == "Usar o método padrão do sistema? "@
    &&& m.ask_repeat_method_times@ == "Número de repetições: "@
    &&& m.ask_create_file@ == "Você não tem um arquivo de configuração, quer criar um? "@
    &&& m.error_input@ == "Falha ao ler a entrada!"@
    &&& m.error_invalid_character@ == "O caractere inserido é inválido"@
    &&& m.error_parse@ == "Erro: O valor inserido tem que ser um número"@
    &&& m.error_unknown_method@ == "não é um método de criptografia conhecido"@
    &&& m.error_number_parse@ == "O número inserido é inválido"@
    &&& m.error_file_open@ == "Não foi possível abrir o arquivo de configuração"@
    &&& m.error_file_read@ == "Não foi possível ler"@
    &&& m.error_file_parse@ == "Erro ao ler o arquivo no formato TOML"@
    &&& m.error_file_prop@ == "não foi ler a propriedade \"default_method\"\n                        do arquivo de configuração"@
    &&& m.final_result@ == "Senha copiada para a área de transferência."@
    &&& m.final_result_show@ == "A senha gerada é "@
}

/// Which table a locale selects.
pub open spec fn is_table_for<'a>(lang: Languages, m: Messages<'a>) -> bool {
    match lang {
        Languages::PtBr => is_pt_br(m),
        Languages::EnUs => is_en_us(m),
    }
}

impl<'a> Messages<'a> {
    /// The message table of the given locale.
    pub fn new(lang: Languages) -> (r: Self)
        ensures
            is_table_for(lang, r),
    {
        match lang {
            Languages::PtBr => crate::pt_br::PtBr::default().0,
            Languages::EnUs => crate::en_us::EnUs::default().0,
        }
    }
}

impl<'a> Default for Messages<'a> {
    /// The table of the fallback locale, English.
    fn default() -> (r: Self)
        ensures
            is_en_us(r),
    {
        Messages::new(Languages::EnUs)
    }
}

} // verus!
