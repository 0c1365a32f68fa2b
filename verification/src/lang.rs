//! The fixed table mapping language codes to display names.

use vstd::prelude::*;
use crate::text::str_eq;

verus! {

/// The display name that belongs to the language code `c`; a code outside
/// the table stands for itself.
pub open spec fn language_name_spec(c: Seq<char>) -> Seq<char> {
    if c == "en"@ {
        "English"@
    } else if c == "es"@ {
        "Spanish"@
    } else if c == "fr"@ {
        "French"@
    } else if c == "de"@ {
        "German"@
    } else if c == "it"@ {
        "Italian"@
    } else if c == "pt"@ {
        "Portuguese"@
    } else if c == "ja"@ {
        "Japanese"@
    } else if c == "zh"@ {
        "Chinese"@
    } else if c == "zh-Hans"@ {
        "Chinese"@
    } else if c == "zh-Hant"@ {
        "Chinese"@
    } else if c == "ar"@ {
        "Arabic"@
    } else if c == "ru"@ {
        "Russian"@
    } else if c == "ko"@ {
        "Korean"@
    } else if c == "hi"@ {
        "Hindi"@
    } else if c == "nl"@ {
        "Dutch"@
    } else if c == "aa"@ {
        "Afar"@
    } else if c == "ab"@ {
        "Abkhazian"@
    } else if c == "af"@ {
        "Afrikaans"@
    } else if c == "ak"@ {
        "Akan"@
    } else if c == "am"@ {
        "Amharic"@
    } else if c == "an"@ {
        "Aragonese"@
    } else if c == "as"@ {
        "Assamese"@
    } else if c == "az"@ {
        "Azerbaijani"@
    } else if c == "ba"@ {
        "Bashkir"@
    } else if c == "be"@ {
        "Belarusian"@
    } else if c == "bg"@ {
        "Bulgarian"@
    } else if c == "bm"@ {
        "Bambara"@
    } else if c == "bn"@ {
        "Bengali"@
    } else if c == "bo"@ {
        "Tibetan"@
    } else if c == "br"@ {
        "Breton"@
    } else if c == "bs"@ {
        "Bosnian"@
    } else if c == "ca"@ {
        "Catalan"@
    } else if c == "ce"@ {
        "Chechen"@
    } else if c == "co"@ {
        "Corsican"@
    } else if c == "cs"@ {
        "Czech"@
    } else if c == "cv"@ {
        "Chuvash"@
    } else if c == "cy"@ {
        "Welsh"@
    } else if c == "da"@ {
        "Danish"@
    } else if c == "dv"@ {
        "Divehi"@
    } else if c == "dz"@ {
        "Dzongkha"@
    } else if c == "ee"@ {
        "Ewe"@
    } else if c == "el"@ {
        "Greek"@
    } else if c == "eo"@ {
        "Esperanto"@
    } else if c == "et"@ {
        "Estonian"@
    } else if c == "eu"@ {
        "Basque"@
    } else if c == "fa"@ {
        "Persian"@
    } else if c == "ff"@ {
        "Fulah"@
    } else if c == "fi"@ {
        "Finnish"@
    } else if c == "fo"@ {
        "Faroese"@
    } else if c == "fy"@ {
        "Western Frisian"@
    } else if c == "ga"@ {
        "Irish"@
    } else if c == "gd"@ {
        "Scottish Gaelic"@
    } else if c == "gl"@ {
        "Galician"@
    } else if c == "gn"@ {
        "Guarani"@
    } else if c == "gu"@ {
        "Gujarati"@
    } else if c == "ha"@ {
        "Hausa"@
    } else if c == "he"@ {
        "Hebrew"@
    } else if c == "hr"@ {
        "Croatian"@
    } else if c == "ht"@ {
        "Haitian"@
    } else if c == "hu"@ {
        "Hungarian"@
    } else if c == "hy"@ {
        "Armenian"@
    } else if c == "id"@ {
        "Indonesian"@
    } else if c == "ig"@ {
        "Igbo"@
    } else if c == "is"@ {
        "Icelandic"@
    } else if c == "jv"@ {
        "Javanese"@
    } else if c == "ka"@ {
        "Georgian"@
    } else if c == "ki"@ {
        "Kikuyu"@
    } else if c == "kk"@ {
        "Kazakh"@
    } else if c == "kl"@ {
        "Kalaallisut"@
    } else if c == "km"@ {
        "Khmer"@
    } else if c == "kn"@ {
        "Kannada"@
    } else if c == "ks"@ {
        "Kashmiri"@
    } else if c == "ku"@ {
        "Kurdish"@
    } else if c == "kw"@ {
        "Cornish"@
    } else if c == "ky"@ {
        "Kyrgyz"@
    } else if c == "la"@ {
        "Latin"@
    } else if c == "lb"@ {
        "Luxembourgish"@
    } else if c == "lg"@ {
        "Ganda"@
    } else if c == "ln"@ {
        "Lingala"@
    } else if c == "lo"@ {
        "Lao"@
    } else if c == "lt"@ {
        "Lithuanian"@
    } else if c == "lu"@ {
        "Luba-Katanga"@
    } else if c == "lv"@ {
        "Latvian"@
    } else if c == "mg"@ {
        "Malagasy"@
    } else if c == "mi"@ {
        "Maori"@
    } else if c == "mk"@ {
        "Macedonian"@
    } else if c == "ml"@ {
        "Malayalam"@
    } else if c == "mn"@ {
        "Mongolian"@
    } else if c == "mr"@ {
        "Marathi"@
    } else if c == "ms"@ {
        "Malay"@
    } else if c == "mt"@ {
        "Maltese"@
    } else if c == "my"@ {
        "Burmese"@
    } else if c == "nb"@ {
        "Norwegian Bokmål"@
    } else if c == "nd"@ {
        "North Ndebele"@
    } else if c == "ne"@ {
        "Nepali"@
    } else if c == "nn"@ {
        "Norwegian Nynorsk"@
    } else if c == "no"@ {
        "Norwegian"@
    } else if c == "nr"@ {
        "South Ndebele"@
    } else if c == "nv"@ {
        "Navajo"@
    } else if c == "ny"@ {
        "Chichewa"@
    } else if c == "oc"@ {
        "Occitan"@
    } else if c == "om"@ {
        "Oromo"@
    } else if c == "or"@ {
        "Oriya"@
    } else if c == "os"@ {
        "Ossetian"@
    } else if c == "pa"@ {
        "Punjabi"@
    } else if c == "pl"@ {
        "Polish"@
    } else if c == "ps"@ {
        "Pashto"@
    } else if c == "qu"@ {
        "Quechua"@
    } else if c == "rm"@ {
        "Romansh"@
    } else if c == "rn"@ {
        "Rundi"@
    } else if c == "ro"@ {
        "Romanian"@
    } else if c == "rw"@ {
        "Kinyarwanda"@
    } else if c == "sa"@ {
        "Sanskrit"@
    } else if c == "sc"@ {
        "Sardinian"@
    } else if c == "sd"@ {
        "Sindhi"@
    } else if c == "se"@ {
        "Northern Sami"@
    } else if c == "sg"@ {
        "Sango"@
    } else if c == "si"@ {
        "Sinhala"@
    } else if c == "sk"@ {
        "Slovak"@
    } else if c == "sl"@ {
        "Slovenian"@
    } else if c == "sn"@ {
        "Shona"@
    } else if c == "so"@ {
        "Somali"@
    } else if c == "sq"@ {
        "Albanian"@
    } else if c == "sr"@ {
        "Serbian"@
    } else if c == "ss"@ {
        "Swati"@
    } else if c == "st"@ {
        "Southern Sotho"@
    } else if c == "su"@ {
        "Sundanese"@
    } else if c == "sv"@ {
        "Swedish"@
    } else if c == "sw"@ {
        "Swahili"@
    } else if c == "ta"@ {
        "Tamil"@
    } else if c == "te"@ {
        "Telugu"@
    } else if c == "tg"@ {
        "Tajik"@
    } else if c == "th"@ {
        "Thai"@
    } else if c == "ti"@ {
        "Tigrinya"@
    } else if c == "tk"@ {
        "Turkmen"@
    } else if c == "tl"@ {
        "Tagalog"@
    } else if c == "tn"@ {
        "Tswana"@
    } else if c == "to"@ {
        "Tonga"@
    } else if c == "tr"@ {
        "Turkish"@
    } else if c == "ts"@ {
        "Tsonga"@
    } else if c == "tt"@ {
        "Tatar"@
    } else if c == "ug"@ {
        "Uyghur"@
    } else if c == "uk"@ {
        "Ukrainian"@
    } else if c == "ur"@ {
        "Urdu"@
    } else if c == "uz"@ {
        "Uzbek"@
    } else if c == "ve"@ {
        "Venda"@
    } else if c == "vi"@ {
        "Vietnamese"@
    } else if c == "vo"@ {
        "Volapük"@
    } else if c == "wa"@ {
        "Walloon"@
    } else if c == "wo"@ {
        "Wolof"@
    } else if c == "xh"@ {
        "Xhosa"@
    } else if c == "yi"@ {
        "Yiddish"@
    } else if c == "yo"@ {
        "Yoruba"@
    } else if c == "za"@ {
        "Zhuang"@
    } else if c == "zu"@ {
        "Zulu"@
    } else {
        c
    }
}

/// Looks the language code up in the fixed table; an unknown code comes
/// back unchanged.
pub fn get_language_name<'a>(code: &'a str) -> (name: &'a str)
    ensures
        name@ == language_name_spec(code@),
{
    if str_eq(code, "en") {
        "English"
    } else if str_eq(code, "es") {
        "Spanish"
    } else if str_eq(code, "fr") {
        "French"
    } else if str_eq(code, "de") {
        "German"
    } else if str_eq(code, "it") {
        "Italian"
    } else if str_eq(code, "pt") {
        "Portuguese"
    } else if str_eq(code, "ja") {
        "Japanese"
    } else if str_eq(code, "zh") {
        "Chinese"
    } else if str_eq(code, "zh-Hans") {
        "Chinese"
    } else if str_eq(code, "zh-Hant") {
        "Chinese"
    } else if str_eq(code, "ar") {
        "Arabic"
    } else if str_eq(code, "ru") {
        "Russian"
    } else if str_eq(code, "ko") {
        "Korean"
    } else if str_eq(code, "hi") {
        "Hindi"
    } else if str_eq(code, "nl") {
        "Dutch"
    } else if str_eq(code, "aa") {
        "Afar"
    } else if str_eq(code, "ab") {
        "Abkhazian"
    } else if str_eq(code, "af") {
        "Afrikaans"
    } else if str_eq(code, "ak") {
        "Akan"
    } else if str_eq(code, "am") {
        "Amharic"
    } else if str_eq(code, "an") {
        "Aragonese"
    } else if str_eq(code, "as") {
        "Assamese"
    } else if str_eq(code, "az") {
        "Azerbaijani"
    } else if str_eq(code, "ba") {
        "Bashkir"
    } else if str_eq(code, "be") {
        "Belarusian"
    } else if str_eq(code, "bg") {
        "Bulgarian"
    } else if str_eq(code, "bm") {
        "Bambara"
    } else if str_eq(code, "bn") {
        "Bengali"
    } else if str_eq(code, "bo") {
        "Tibetan"
    } else if str_eq(code, "br") {
        "Breton"
    } else if str_eq(code, "bs") {
        "Bosnian"
    } else if str_eq(code, "ca") {
        "Catalan"
    } else if str_eq(code, "ce") {
        "Chechen"
    } else if str_eq(code, "co") {
        "Corsican"
    } else if str_eq(code, "cs") {
        "Czech"
    } else if str_eq(code, "cv") {
        "Chuvash"
    } else if str_eq(code, "cy") {
        "Welsh"
    } else if str_eq(code, "da") {
        "Danish"
    } else if str_eq(code, "dv") {
        "Divehi"
    } else if str_eq(code, "dz") {
        "Dzongkha"
    } else if str_eq(code, "ee") {
        "Ewe"
    } else if str_eq(code, "el") {
        "Greek"
    } else if str_eq(code, "eo") {
        "Esperanto"
    } else if str_eq(code, "et") {
        "Estonian"
    } else if str_eq(code, "eu") {
        "Basque"
    } else if str_eq(code, "fa") {
        "Persian"
    } else if str_eq(code, "ff") {
        "Fulah"
    } else if str_eq(code, "fi") {
        "Finnish"
    } else if str_eq(code, "fo") {
        "Faroese"
    } else if str_eq(code, "fy") {
        "Western Frisian"
    } else if str_eq(code, "ga") {
        "Irish"
    } else if str_eq(code, "gd") {
        "Scottish Gaelic"
    } else if str_eq(code, "gl") {
        "Galician"
    } else if str_eq(code, "gn") {
        "Guarani"
    } else if str_eq(code, "gu") {
        "Gujarati"
    } else if str_eq(code, "ha") {
        "Hausa"
    } else if str_eq(code, "he") {
        "Hebrew"
    } else if str_eq(code, "hr") {
        "Croatian"
    } else if str_eq(code, "ht") {
        "Haitian"
    } else if str_eq(code, "hu") {
        "Hungarian"
    } else if str_eq(code, "hy") {
        "Armenian"
    } else if str_eq(code, "id") {
        "Indonesian"
    } else if str_eq(code, "ig") {
        "Igbo"
    } else if str_eq(code, "is") {
        "Icelandic"
    } else if str_eq(code, "jv") {
        "Javanese"
    } else if str_eq(code, "ka") {
        "Georgian"
    } else if str_eq(code, "ki") {
        "Kikuyu"
    } else if str_eq(code, "kk") {
        "Kazakh"
    } else if str_eq(code, "kl") {
        "Kalaallisut"
    } else if str_eq(code, "km") {
        "Khmer"
    } else if str_eq(code, "kn") {
        "Kannada"
    } else if str_eq(code, "ks") {
        "Kashmiri"
    } else if str_eq(code, "ku") {
        "Kurdish"
    } else if str_eq(code, "kw") {
        "Cornish"
    } else if str_eq(code, "ky") {
        "Kyrgyz"
    } else if str_eq(code, "la") {
        "Latin"
    } else if str_eq(code, "lb") {
        "Luxembourgish"
    } else if str_eq(code, "lg") {
        "Ganda"
    } else if str_eq(code, "ln") {
        "Lingala"
    } else if str_eq(code, "lo") {
        "Lao"
    } else if str_eq(code, "lt") {
        "Lithuanian"
    } else if str_eq(code, "lu") {
        "Luba-Katanga"
    } else if str_eq(code, "lv") {
        "Latvian"
    } else if str_eq(code, "mg") {
        "Malagasy"
    } else if str_eq(code, "mi") {
        "Maori"
    } else if str_eq(code, "mk") {
        "Macedonian"
    } else if str_eq(code, "ml") {
        "Malayalam"
    } else if str_eq(code, "mn") {
        "Mongolian"
    } else if str_eq(code, "mr") {
        "Marathi"
    } else if str_eq(code, "ms") {
        "Malay"
    } else if str_eq(code, "mt") {
        "Maltese"
    } else if str_eq(code, "my") {
        "Burmese"
    } else if str_eq(code, "nb") {
        "Norwegian Bokmål"
    } else if str_eq(code, "nd") {
        "North Ndebele"
    } else if str_eq(code, "ne") {
        "Nepali"
    } else if str_eq(code, "nn") {
        "Norwegian Nynorsk"
    } else if str_eq(code, "no") {
        "Norwegian"
    } else if str_eq(code, "nr") {
        "South Ndebele"
    } else if str_eq(code, "nv") {
        "Navajo"
    } else if str_eq(code, "ny") {
        "Chichewa"
    } else if str_eq(code, "oc") {
        "Occitan"
    } else if str_eq(code, "om") {
        "Oromo"
    } else if str_eq(code, "or") {
        "Oriya"
    } else if str_eq(code, "os") {
        "Ossetian"
    } else if str_eq(code, "pa") {
        "Punjabi"
    } else if str_eq(code, "pl") {
        "Polish"
    } else if str_eq(code, "ps") {
        "Pashto"
    } else if str_eq(code, "qu") {
        "Quechua"
    } else if str_eq(code, "rm") {
        "Romansh"
    } else if str_eq(code, "rn") {
        "Rundi"
    } else if str_eq(code, "ro") {
        "Romanian"
    } else if str_eq(code, "rw") {
        "Kinyarwanda"
    } else if str_eq(code, "sa") {
        "Sanskrit"
    } else if str_eq(code, "sc") {
        "Sardinian"
    } else if str_eq(code, "sd") {
        "Sindhi"
    } else if str_eq(code, "se") {
        "Northern Sami"
    } else if str_eq(code, "sg") {
        "Sango"
    } else if str_eq(code, "si") {
        "Sinhala"
    } else if str_eq(code, "sk") {
        "Slovak"
    } else if str_eq(code, "sl") {
        "Slovenian"
    } else if str_eq(code, "sn") {
        "Shona"
    } else if str_eq(code, "so") {
        "Somali"
    } else if str_eq(code, "sq") {
        "Albanian"
    } else if str_eq(code, "sr") {
        "Serbian"
    } else if str_eq(code, "ss") {
        "Swati"
    } else if str_eq(code, "st") {
        "Southern Sotho"
    } else if str_eq(code, "su") {
        "Sundanese"
    } else if str_eq(code, "sv") {
        "Swedish"
    } else if str_eq(code, "sw") {
        "Swahili"
    } else if str_eq(code, "ta") {
        "Tamil"
    } else if str_eq(code, "te") {
        "Telugu"
    } else if str_eq(code, "tg") {
        "Tajik"
    } else if str_eq(code, "th") {
        "Thai"
    } else if str_eq(code, "ti") {
        "Tigrinya"
    } else if str_eq(code, "tk") {
        "Turkmen"
    } else if str_eq(code, "tl") {
        "Tagalog"
    } else if str_eq(code, "tn") {
        "Tswana"
    } else if str_eq(code, "to") {
        "Tonga"
    } else if str_eq(code, "tr") {
        "Turkish"
    } else if str_eq(code, "ts") {
        "Tsonga"
    } else if str_eq(code, "tt") {
        "Tatar"
    } else if str_eq(code, "ug") {
        "Uyghur"
    } else if str_eq(code, "uk") {
        "Ukrainian"
    } else if str_eq(code, "ur") {
        "Urdu"
    } else if str_eq(code, "uz") {
        "Uzbek"
    } else if str_eq(code, "ve") {
        "Venda"
    } else if str_eq(code, "vi") {
        "Vietnamese"
    } else if str_eq(code, "vo") {
        "Volapük"
    } else if str_eq(code, "wa") {
        "Walloon"
    } else if str_eq(code, "wo") {
        "Wolof"
    } else if str_eq(code, "xh") {
        "Xhosa"
    } else if str_eq(code, "yi") {
        "Yiddish"
    } else if str_eq(code, "yo") {
        "Yoruba"
    } else if str_eq(code, "za") {
        "Zhuang"
    } else if str_eq(code, "zu") {
        "Zulu"
    } else {
        code
    }
}

/// Whether `c` is one of the language codes that the table lists.
pub open spec fn known_language_code(c: Seq<char>) -> bool {
    ||| c == "en"@
    ||| c == "es"@
    ||| c == "fr"@
    ||| c == "de"@
    ||| c == "it"@
    ||| c == "pt"@
    ||| c == "ja"@
    ||| c == "zh"@
    ||| c == "zh-Hans"@
    ||| c == "zh-Hant"@
    ||| c == "ar"@
    ||| c == "ru"@
    ||| c == "ko"@
    ||| c == "hi"@
    ||| c == "nl"@
    ||| c == "aa"@
    ||| c == "ab"@
    ||| c == "af"@
    ||| c == "ak"@
    ||| c == "am"@
    ||| c == "an"@
    ||| c == "as"@
    ||| c == "az"@
    ||| c == "ba"@
    ||| c == "be"@
    ||| c == "bg"@
    ||| c == "bm"@
    ||| c == "bn"@
    ||| c == "bo"@
    ||| c == "br"@
    ||| c == "bs"@
    ||| c == "ca"@
    ||| c == "ce"@
    ||| c == "co"@
    ||| c == "cs"@
    ||| c == "cv"@
    ||| c == "cy"@
    ||| c == "da"@
    ||| c == "dv"@
    ||| c == "dz"@
    ||| c == "ee"@
    ||| c == "el"@
    ||| c == "eo"@
    ||| c == "et"@
    ||| c == "eu"@
    ||| c == "fa"@
    ||| c == "ff"@
    ||| c == "fi"@
    ||| c == "fo"@
    ||| c == "fy"@
    ||| c == "ga"@
    ||| c == "gd"@
    ||| c == "gl"@
    ||| c == "gn"@
    ||| c == "gu"@
    ||| c == "ha"@
    ||| c == "he"@
    ||| c == "hr"@
    ||| c == "ht"@
    ||| c == "hu"@
    ||| c == "hy"@
    ||| c == "id"@
    ||| c == "ig"@
    ||| c == "is"@
    ||| c == "jv"@
    ||| c == "ka"@
    ||| c == "ki"@
    ||| c == "kk"@
    ||| c == "kl"@
    ||| c == "km"@
    ||| c == "kn"@
    ||| c == "ks"@
    ||| c == "ku"@
    ||| c == "kw"@
    ||| c == "ky"@
    ||| c == "la"@
    ||| c == "lb"@
    ||| c == "lg"@
    ||| c == "ln"@
    ||| c == "lo"@
    ||| c == "lt"@
    ||| c == "lu"@
    ||| c == "lv"@
    ||| c == "mg"@
    ||| c == "mi"@
    ||| c == "mk"@
    ||| c == "ml"@
    ||| c == "mn"@
    ||| c == "mr"@
    ||| c == "ms"@
    ||| c == "mt"@
    ||| c == "my"@
    ||| c == "nb"@
    ||| c == "nd"@
    ||| c == "ne"@
    ||| c == "nn"@
    ||| c == "no"@
    ||| c == "nr"@
    ||| c == "nv"@
    ||| c == "ny"@
    ||| c == "oc"@
    ||| c == "om"@
    ||| c == "or"@
    ||| c == "os"@
    ||| c == "pa"@
    ||| c == "pl"@
    ||| c == "ps"@
    ||| c == "qu"@
    ||| c == "rm"@
    ||| c == "rn"@
    ||| c == "ro"@
    ||| c == "rw"@
    ||| c == "sa"@
    ||| c == "sc"@
    ||| c == "sd"@
    ||| c == "se"@
    ||| c == "sg"@
    ||| c == "si"@
    ||| c == "sk"@
    ||| c == "sl"@
    ||| c == "sn"@
    ||| c == "so"@
    ||| c == "sq"@
    ||| c == "sr"@
    ||| c == "ss"@
    ||| c == "st"@
    ||| c == "su"@
    ||| c == "sv"@
    ||| c == "sw"@
    ||| c == "ta"@
    ||| c == "te"@
    ||| c == "tg"@
    ||| c == "th"@
    ||| c == "ti"@
    ||| c == "tk"@
    ||| c == "tl"@
    ||| c == "tn"@
    ||| c == "to"@
    ||| c == "tr"@
    ||| c == "ts"@
    ||| c == "tt"@
    ||| c == "ug"@
    ||| c == "uk"@
    ||| c == "ur"@
    ||| c == "uz"@
    ||| c == "ve"@
    ||| c == "vi"@
    ||| c == "vo"@
    ||| c == "wa"@
    ||| c == "wo"@
    ||| c == "xh"@
    ||| c == "yi"@
    ||| c == "yo"@
    ||| c == "za"@
    ||| c == "zu"@
}

/// The identity fallback: a code outside the table resolves to itself.
pub proof fn lemma_unknown_code_identity(c: Seq<char>)
    requires
        !known_language_code(c),
    ensures
        language_name_spec(c) == c,
{
}

/// Every display name of the table begins with an upper-case letter.
proof fn lemma_name_starts_uppercase(c: Seq<char>)
    ensures
        language_name_spec(c) == c || (language_name_spec(c).len() > 0 && 'A' <= language_name_spec(c)[0] <= 'Z'),
{
    reveal_strlit("English");
    reveal_strlit("Spanish");
    reveal_strlit("French");
    reveal_strlit("German");
    reveal_strlit("Italian");
    reveal_strlit("Portuguese");
    reveal_strlit("Japanese");
    reveal_strlit("Chinese");
    reveal_strlit("Arabic");
    reveal_strlit("Russian");
    reveal_strlit("Korean");
    reveal_strlit("Hindi");
    reveal_strlit("Dutch");
    reveal_strlit("Afar");
    reveal_strlit("Abkhazian");
    reveal_strlit("Afrikaans");
    reveal_strlit("Akan");
    reveal_strlit("Amharic");
    reveal_strlit("Aragonese");
    reveal_strlit("Assamese");
    reveal_strlit("Azerbaijani");
    reveal_strlit("Bashkir");
    reveal_strlit("Belarusian");
    reveal_strlit("Bulgarian");
    reveal_strlit("Bambara");
    reveal_strlit("Bengali");
    reveal_strlit("Tibetan");
    reveal_strlit("Breton");
    reveal_strlit("Bosnian");
    reveal_strlit("Catalan");
    reveal_strlit("Chechen");
    reveal_strlit("Corsican");
    reveal_strlit("Czech");
    reveal_strlit("Chuvash");
    reveal_strlit("Welsh");
    reveal_strlit("Danish");
    reveal_strlit("Divehi");
    reveal_strlit("Dzongkha");
    reveal_strlit("Ewe");
    reveal_strlit("Greek");
    reveal_strlit("Esperanto");
    reveal_strlit("Estonian");
    reveal_strlit("Basque");
    reveal_strlit("Persian");
    reveal_strlit("Fulah");
    reveal_strlit("Finnish");
    reveal_strlit("Faroese");
    reveal_strlit("Western Frisian");
    reveal_strlit("Irish");
    reveal_strlit("Scottish Gaelic");
    reveal_strlit("Galician");
    reveal_strlit("Guarani");
    reveal_strlit("Gujarati");
    reveal_strlit("Hausa");
    reveal_strlit("Hebrew");
    reveal_strlit("Croatian");
    reveal_strlit("Haitian");
    reveal_strlit("Hungarian");
    reveal_strlit("Armenian");
    reveal_strlit("Indonesian");
    reveal_strlit("Igbo");
    reveal_strlit("Icelandic");
    reveal_strlit("Javanese");
    reveal_strlit("Georgian");
    reveal_strlit("Kikuyu");
    reveal_strlit("Kazakh");
    reveal_strlit("Kalaallisut");
    reveal_strlit("Khmer");
    reveal_strlit("Kannada");
    reveal_strlit("Kashmiri");
    reveal_strlit("Kurdish");
    reveal_strlit("Cornish");
    reveal_strlit("Kyrgyz");
    reveal_strlit("Latin");
    reveal_strlit("Luxembourgish");
    reveal_strlit("Ganda");
    reveal_strlit("Lingala");
    reveal_strlit("Lao");
    reveal_strlit("Lithuanian");
    reveal_strlit("Luba-Katanga");
    reveal_strlit("Latvian");
    reveal_strlit("Malagasy");
    reveal_strlit("Maori");
    reveal_strlit("Macedonian");
    reveal_strlit("Malayalam");
    reveal_strlit("Mongolian");
    reveal_strlit("Marathi");
    reveal_strlit("Malay");
    reveal_strlit("Maltese");
    reveal_strlit("Burmese");
    reveal_strlit("Norwegian Bokmål");
    reveal_strlit("North Ndebele");
    reveal_strlit("Nepali");
    reveal_strlit("Norwegian Nynorsk");
    reveal_strlit("Norwegian");
    reveal_strlit("South Ndebele");
    reveal_strlit("Navajo");
    reveal_strlit("Chichewa");
    reveal_strlit("Occitan");
    reveal_strlit("Oromo");
    reveal_strlit("Oriya");
    reveal_strlit("Ossetian");
    reveal_strlit("Punjabi");
    reveal_strlit("Polish");
    reveal_strlit("Pashto");
    reveal_strlit("Quechua");
    reveal_strlit("Romansh");
    reveal_strlit("Rundi");
    reveal_strlit("Romanian");
    reveal_strlit("Kinyarwanda");
    reveal_strlit("Sanskrit");
    reveal_strlit("Sardinian");
    reveal_strlit("Sindhi");
    reveal_strlit("Northern Sami");
    reveal_strlit("Sango");
    reveal_strlit("Sinhala");
    reveal_strlit("Slovak");
    reveal_strlit("Slovenian");
    reveal_strlit("Shona");
    reveal_strlit("Somali");
    reveal_strlit("Albanian");
    reveal_strlit("Serbian");
    reveal_strlit("Swati");
    reveal_strlit("Southern Sotho");
    reveal_strlit("Sundanese");
    reveal_strlit("Swedish");
    reveal_strlit("Swahili");
    reveal_strlit("Tamil");
    reveal_strlit("Telugu");
    reveal_strlit("Tajik");
    reveal_strlit("Thai");
    reveal_strlit("Tigrinya");
    reveal_strlit("Turkmen");
    reveal_strlit("Tagalog");
    reveal_strlit("Tswana");
    reveal_strlit("Tonga");
    reveal_strlit("Turkish");
    reveal_strlit("Tsonga");
    reveal_strlit("Tatar");
    reveal_strlit("Uyghur");
    reveal_strlit("Ukrainian");
    reveal_strlit("Urdu");
    reveal_strlit("Uzbek");
    reveal_strlit("Venda");
    reveal_strlit("Vietnamese");
    reveal_strlit("Volapük");
    reveal_strlit("Walloon");
    reveal_strlit("Wolof");
    reveal_strlit("Xhosa");
    reveal_strlit("Yiddish");
    reveal_strlit("Yoruba");
    reveal_strlit("Zhuang");
    reveal_strlit("Zulu");
}

/// A value that begins with an upper-case letter is no language code of
/// the table, so it resolves to itself.
proof fn lemma_uppercase_is_no_code(c: Seq<char>)
    requires
        c.len() > 0,
        'A' <= c[0] <= 'Z',
    ensures
        language_name_spec(c) == c,
{
    reveal_strlit("en");
    reveal_strlit("es");
    reveal_strlit("fr");
    reveal_strlit("de");
    reveal_strlit("it");
    reveal_strlit("pt");
    reveal_strlit("ja");
    reveal_strlit("zh");
    reveal_strlit("zh-Hans");
    reveal_strlit("zh-Hant");
    reveal_strlit("ar");
    reveal_strlit("ru");
    reveal_strlit("ko");
    reveal_strlit("hi");
    reveal_strlit("nl");
    reveal_strlit("aa");
    reveal_strlit("ab");
    reveal_strlit("af");
    reveal_strlit("ak");
    reveal_strlit("am");
    reveal_strlit("an");
    reveal_strlit("as");
    reveal_strlit("az");
    reveal_strlit("ba");
    reveal_strlit("be");
    reveal_strlit("bg");
    reveal_strlit("bm");
    reveal_strlit("bn");
    reveal_strlit("bo");
    reveal_strlit("br");
    reveal_strlit("bs");
    reveal_strlit("ca");
    reveal_strlit("ce");
    reveal_strlit("co");
    reveal_strlit("cs");
    reveal_strlit("cv");
    reveal_strlit("cy");
    reveal_strlit("da");
    reveal_strlit("dv");
    reveal_strlit("dz");
    reveal_strlit("ee");
    reveal_strlit("el");
    reveal_strlit("eo");
    reveal_strlit("et");
    reveal_strlit("eu");
    reveal_strlit("fa");
    reveal_strlit("ff");
    reveal_strlit("fi");
    reveal_strlit("fo");
    reveal_strlit("fy");
    reveal_strlit("ga");
    reveal_strlit("gd");
    reveal_strlit("gl");
    reveal_strlit("gn");
    reveal_strlit("gu");
    reveal_strlit("ha");
    reveal_strlit("he");
    reveal_strlit("hr");
    reveal_strlit("ht");
    reveal_strlit("hu");
    reveal_strlit("hy");
    reveal_strlit("id");
    reveal_strlit("ig");
    reveal_strlit("is");
    reveal_strlit("jv");
    reveal_strlit("ka");
    reveal_strlit("ki");
    reveal_strlit("kk");
    reveal_strlit("kl");
    reveal_strlit("km");
    reveal_strlit("kn");
    reveal_strlit("ks");
    reveal_strlit("ku");
    reveal_strlit("kw");
    reveal_strlit("ky");
    reveal_strlit("la");
    reveal_strlit("lb");
    reveal_strlit("lg");
    reveal_strlit("ln");
    reveal_strlit("lo");
    reveal_strlit("lt");
    reveal_strlit("lu");
    reveal_strlit("lv");
    reveal_strlit("mg");
    reveal_strlit("mi");
    reveal_strlit("mk");
    reveal_strlit("ml");
    reveal_strlit("mn");
    reveal_strlit("mr");
    reveal_strlit("ms");
    reveal_strlit("mt");
    reveal_strlit("my");
    reveal_strlit("nb");
    reveal_strlit("nd");
    reveal_strlit("ne");
    reveal_strlit("nn");
    reveal_strlit("no");
    reveal_strlit("nr");
    reveal_strlit("nv");
    reveal_strlit("ny");
    reveal_strlit("oc");
    reveal_strlit("om");
    reveal_strlit("or");
    reveal_strlit("os");
    reveal_strlit("pa");
    reveal_strlit("pl");
    reveal_strlit("ps");
    reveal_strlit("qu");
    reveal_strlit("rm");
    reveal_strlit("rn");
    reveal_strlit("ro");
    reveal_strlit("rw");
    reveal_strlit("sa");
    reveal_strlit("sc");
    reveal_strlit("sd");
    reveal_strlit("se");
    reveal_strlit("sg");
    reveal_strlit("si");
    reveal_strlit("sk");
    reveal_strlit("sl");
    reveal_strlit("sn");
    reveal_strlit("so");
    reveal_strlit("sq");
    reveal_strlit("sr");
    reveal_strlit("ss");
    reveal_strlit("st");
    reveal_strlit("su");
    reveal_strlit("sv");
    reveal_strlit("sw");
    reveal_strlit("ta");
    reveal_strlit("te");
    reveal_strlit("tg");
    reveal_strlit("th");
    reveal_strlit("ti");
    reveal_strlit("tk");
    reveal_strlit("tl");
    reveal_strlit("tn");
    reveal_strlit("to");
    reveal_strlit("tr");
    reveal_strlit("ts");
    reveal_strlit("tt");
    reveal_strlit("ug");
    reveal_strlit("uk");
    reveal_strlit("ur");
    reveal_strlit("uz");
    reveal_strlit("ve");
    reveal_strlit("vi");
    reveal_strlit("vo");
    reveal_strlit("wa");
    reveal_strlit("wo");
    reveal_strlit("xh");
    reveal_strlit("yi");
    reveal_strlit("yo");
    reveal_strlit("za");
    reveal_strlit("zu");
}

/// Resolving a resolved value changes nothing: a display name of the table
/// is itself no language code, and an unknown code already stands for
/// itself.
pub proof fn lemma_language_name_idempotent(c: Seq<char>)
    ensures
        language_name_spec(language_name_spec(c)) == language_name_spec(c),
{
    lemma_name_starts_uppercase(c);
    if language_name_spec(c) != c {
        lemma_uppercase_is_no_code(language_name_spec(c));
    }
}

} // verus!
