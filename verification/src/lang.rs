//! The languages of the board's interface and the strings translated into them.
use vstd::prelude::*;

verus! {

/// A language that [`LanguageString`]s support.
#[derive(Clone, Copy, PartialEq, Eq, Debug, Structural)]
pub enum Lang {
    En,
    Jp,
    Fr,
    Es,
    Pt,
    Zh,
    Cn,
    Ru,
    De,
}

/// The number that stands for a language in settings strings.
pub open spec fn lang_code(l: Lang) -> u8 {
    match l {
        Lang::En => 0,
        Lang::Jp => 1,
        Lang::Fr => 2,
        Lang::Es => 3,
        Lang::Pt => 4,
        Lang::Zh => 5,
        Lang::Cn => 6,
        Lang::Ru => 7,
        Lang::De => 8,
    }
}

/// The language that a number stands for; unknown numbers stand for English.
pub open spec fn lang_of(v: u8) -> Lang {
    if v == 1 {
        Lang::Jp
    } else if v == 2 {
        Lang::Fr
    } else if v == 3 {
        Lang::Es
    } else if v == 4 {
        Lang::Pt
    } else if v == 5 {
        Lang::Zh
    } else if v == 6 {
        Lang::Cn
    } else if v == 7 {
        Lang::Ru
    } else if v == 8 {
        Lang::De
    } else {
        Lang::En
    }
}

impl Lang {
    /// The number that stands for this language.
    pub fn code(self) -> (v: u8)
        ensures
            v == lang_code(self),
    {
        match self {
            Lang::En => 0,
            Lang::Jp => 1,
            Lang::Fr => 2,
            Lang::Es => 3,
            Lang::Pt => 4,
            Lang::Zh => 5,
            Lang::Cn => 6,
            Lang::Ru => 7,
            Lang::De => 8,
        }
    }

    /// The language that `val` stands for (English for unknown numbers).
    pub fn from_code(val: u8) -> (l: Lang)
        ensures
            l == lang_of(val),
    {
        match val {
            1 => Lang::Jp,
            2 => Lang::Fr,
            3 => Lang::Es,
            4 => Lang::Pt,
            5 => Lang::Zh,
            6 => Lang::Cn,
            7 => Lang::Ru,
            8 => Lang::De,
            _ => Lang::En,
        }
    }
}

impl From<Lang> for u8 {
    fn from(l: Lang) -> (v: u8) {
        l.code()
    }
}

impl vstd::std_specs::convert::FromSpecImpl<Lang> for u8 {
    open spec fn obeys_from_spec() -> bool {
        true
    }

    open spec fn from_spec(l: Lang) -> u8 {
        lang_code(l)
    }
}

impl From<u8> for Lang {
    fn from(val: u8) -> (l: Lang) {
        Lang::from_code(val)
    }
}

impl vstd::std_specs::convert::FromSpecImpl<u8> for Lang {
    open spec fn obeys_from_spec() -> bool {
        true
    }

    open spec fn from_spec(v: u8) -> Lang {
        lang_of(v)
    }
}

/// A language's number stands for that language again.
pub proof fn lemma_lang_code_round_trip(l: Lang)
    ensures
        lang_of(lang_code(l)) == l,
        lang_code(l) <= 8,
{
}

/// A number up to 8 is the number of the language it stands for; any other stands for English.
pub proof fn lemma_lang_of_round_trip(v: u8)
    ensures
        v <= 8 ==> lang_code(lang_of(v)) == v,
        v > 8 ==> lang_of(v) == Lang::En,
{
}

/// The language after `cur` in the order in which the language screen cycles. Russian is left
/// out of the cycle (its text runs off the screen); from Russian the cycle goes on to German.
pub open spec fn spec_next_lang(cur: Lang) -> Lang {
    match cur {
        Lang::En => Lang::Jp,
        Lang::Jp => Lang::Fr,
        Lang::Fr => Lang::Es,
        Lang::Es => Lang::Pt,
        Lang::Pt => Lang::Zh,
        Lang::Zh => Lang::Cn,
        Lang::Cn => Lang::De,
        Lang::Ru => Lang::De,
        Lang::De => Lang::En,
    }
}

/// The language before `cur` in the order in which the language screen cycles (Russian left
/// out; from Russian the cycle goes back to Traditional Chinese).
pub open spec fn spec_prev_lang(cur: Lang) -> Lang {
    match cur {
        Lang::Jp => Lang::En,
        Lang::Fr => Lang::Jp,
        Lang::Es => Lang::Fr,
        Lang::Pt => Lang::Es,
        Lang::Zh => Lang::Pt,
        Lang::Cn => Lang::Zh,
        Lang::Ru => Lang::Cn,
        Lang::De => Lang::Cn,
        Lang::En => Lang::De,
    }
}

/// The next language of the language screen's cycle, which leaves Russian out.
pub fn next_lang(cur: Lang) -> (l: Lang)
    ensures
        l == spec_next_lang(cur),
        l != Lang::Ru,
{
    match cur {
        Lang::En => Lang::Jp,
        Lang::Jp => Lang::Fr,
        Lang::Fr => Lang::Es,
        Lang::Es => Lang::Pt,
        Lang::Pt => Lang::Zh,
        Lang::Zh => Lang::Cn,
        Lang::Cn => Lang::De,
        Lang::Ru => Lang::De,
        Lang::De => Lang::En,
    }
}

/// The previous language of the language screen's cycle, which leaves Russian out.
pub fn prev_lang(cur: Lang) -> (l: Lang)
    ensures
        l == spec_prev_lang(cur),
        l != Lang::Ru,
{
    match cur {
        Lang::Jp => Lang::En,
        Lang::Fr => Lang::Jp,
        Lang::Es => Lang::Fr,
        Lang::Pt => Lang::Es,
        Lang::Zh => Lang::Pt,
        Lang::Cn => Lang::Zh,
        Lang::Ru => Lang::Cn,
        Lang::De => Lang::Cn,
        Lang::En => Lang::De,
    }
}

/// Stepping back undoes stepping forward, and the other way round, for every language in the
/// cycle (all but Russian).
pub proof fn lemma_next_prev_inverse(l: Lang)
    requires
        l != Lang::Ru,
    ensures
        spec_prev_lang(spec_next_lang(l)) == l,
        spec_next_lang(spec_prev_lang(l)) == l,
{
}

/// The language after `cur` on the title screen, which skips Russian.
pub open spec fn spec_title_next_lang(cur: Lang) -> Lang {
    match cur {
        Lang::Cn => Lang::De,
        _ => spec_next_lang(cur),
    }
}

/// The next language that the title screen shows its greeting in (Russian is skipped).
pub fn title_next_lang(cur: Lang) -> (l: Lang)
    ensures
        l == spec_title_next_lang(cur),
{
    match cur {
        Lang::En => Lang::Jp,
        Lang::Jp => Lang::Fr,
        Lang::Fr => Lang::Es,
        Lang::Es => Lang::Pt,
        Lang::Pt => Lang::Zh,
        Lang::Zh => Lang::Cn,
        Lang::Cn => Lang::De,
        Lang::Ru => Lang::De,
        Lang::De => Lang::En,
    }
}

/// From any language but Russian the title screen never steps to Russian.
pub proof fn lemma_title_skips_russian(l: Lang)
    requires
        l != Lang::Ru,
    ensures
        spec_title_next_lang(l) != Lang::Ru,
{
}

/// A string with its translation into each supported language.
#[derive(Clone, Copy, PartialEq, Eq, Debug)]
pub struct LanguageString {
    en: &'static str,
    jp: &'static str,
    fr: &'static str,
    es: &'static str,
    pt: &'static str,
    zh: &'static str,
    cn: &'static str,
    ru: &'static str,
    de: &'static str,
}

impl LanguageString {
    /// The translation into `lang`.
    pub closed spec fn spec_index(&self, lang: Lang) -> &'static str {
        match lang {
            Lang::En => self.en,
            Lang::Jp => self.jp,
            Lang::Fr => self.fr,
            Lang::Es => self.es,
            Lang::Pt => self.pt,
            Lang::Zh => self.zh,
            Lang::Cn => self.cn,
            Lang::Ru => self.ru,
            Lang::De => self.de,
        }
    }

    /// Builds a string from its nine translations, in the order of [`Lang`].
    pub fn new(
        en: &'static str,
        jp: &'static str,
        fr: &'static str,
        es: &'static str,
        pt: &'static str,
        zh: &'static str,
        cn: &'static str,
        ru: &'static str,
        de: &'static str,
    ) -> (s: LanguageString)
        ensures
            s.spec_index(Lang::En) == en,
            s.spec_index(Lang::Jp) == jp,
            s.spec_index(Lang::Fr) == fr,
            s.spec_index(Lang::Es) == es,
            s.spec_index(Lang::Pt) == pt,
            s.spec_index(Lang::Zh) == zh,
            s.spec_index(Lang::Cn) == cn,
            s.spec_index(Lang::Ru) == ru,
            s.spec_index(Lang::De) == de,
    {
        LanguageString { en, jp, fr, es, pt, zh, cn, ru, de }
    }

    /// The translation into `lang`.
    pub fn const_index(&self, lang: Lang) -> (s: &'static str)
        ensures
            s == self.spec_index(lang),
    {
        match lang {
            Lang::En => self.en,
            Lang::Jp => self.jp,
            Lang::Fr => self.fr,
            Lang::Es => self.es,
            Lang::Pt => self.pt,
            Lang::Zh => self.zh,
            Lang::Cn => self.cn,
            Lang::Ru => self.ru,
            Lang::De => self.de,
        }
    }

    /// A string that reads the same in every language.
    pub fn const_string(s: &'static str) -> (ls: LanguageString)
        ensures
            forall|l: Lang| #[trigger] ls.spec_index(l) == s,
    {
        LanguageString { en: s, jp: s, fr: s, es: s, pt: s, zh: s, cn: s, ru: s, de: s }
    }
}

/// The name of each language in that language.
pub open spec fn spec_text_language_name(l: Lang) -> &'static str {
    match l {
        Lang::En => "English",
        Lang::Jp => "日本語",
        Lang::Fr => "français",
        Lang::Es => "Español",
        Lang::Pt => "Português",
        Lang::Zh => "简体中文",
        Lang::Cn => "繁體中文",
        Lang::Ru => "Русский",
        Lang::De => "Deutsch",
    }
}

/// The name of each language in that language.
pub fn text_language_name() -> (s: LanguageString)
    ensures
        forall|l: Lang| #[trigger] s.spec_index(l) == spec_text_language_name(l),
{
    LanguageString::new("English", "日本語", "français", "Español", "Português", "简体中文", "繁體中文", "Русский", "Deutsch")
}

/// The first line of the greeting on the title screen.
pub open spec fn spec_text_welcome(l: Lang) -> &'static str {
    match l {
        Lang::En => "Welcome to",
        Lang::Jp => "PumpBotへ",
        Lang::Fr => "Bienvenue sur",
        Lang::Es => "¡Bienvenido a",
        Lang::Pt => "Bem-vinde ao",
        Lang::Zh => "欢迎使用",
        Lang::Cn => "歡迎使用",
        Lang::Ru => "Добро подаловать",
        Lang::De => "Willkommen zu",
    }
}

/// The first line of the greeting on the title screen.
pub fn text_welcome() -> (s: LanguageString)
    ensures
        forall|l: Lang| #[trigger] s.spec_index(l) == spec_text_welcome(l),
{
    LanguageString::new("Welcome to", "PumpBotへ", "Bienvenue sur", "¡Bienvenido a", "Bem-vinde ao", "欢迎使用", "歡迎使用", "Добро подаловать", "Willkommen zu")
}

/// The second line of the greeting on the title screen.
pub open spec fn spec_text_welcome_a(l: Lang) -> &'static str {
    match l {
        Lang::En => "PumpBot!",
        Lang::Jp => "ようこそ!",
        Lang::Fr => "PumpBot!",
        Lang::Es => "PumpBot!",
        Lang::Pt => "PumpBot!",
        Lang::Zh => "PumpBot！",
        Lang::Cn => "PumpBot！",
        Lang::Ru => "в PumpBot!",
        Lang::De => "PumpBot!",
    }
}

/// The second line of the greeting on the title screen.
pub fn text_welcome_a() -> (s: LanguageString)
    ensures
        forall|l: Lang| #[trigger] s.spec_index(l) == spec_text_welcome_a(l),
{
    LanguageString::new("PumpBot!", "ようこそ!", "PumpBot!", "PumpBot!", "PumpBot!", "PumpBot！", "PumpBot！", "в PumpBot!", "PumpBot!")
}

/// The prompt to press the encoder button.
pub open spec fn spec_text_pressenc(l: Lang) -> &'static str {
    match l {
        Lang::En => "Press ⤓ to Continue",
        Lang::Jp => "⤓を押して進む",
        Lang::Fr => "Appuyez sur ⤓ pour continuer",
        Lang::Es => "Presiona ⤓ para continuar",
        Lang::Pt => "Pressione ⤓ para continuar",
        Lang::Zh => "按⤓来开始",
        Lang::Cn => "㩒⤓繼續",
        Lang::Ru => "Нажмите ⤓ чтобы продолжить",
        Lang::De => "Drücke ⤓ Um Fortzufahren",
    }
}

/// The prompt to press the encoder button.
pub fn text_pressenc() -> (s: LanguageString)
    ensures
        forall|l: Lang| #[trigger] s.spec_index(l) == spec_text_pressenc(l),
{
    LanguageString::new("Press ⤓ to Continue", "⤓を押して進む", "Appuyez sur ⤓ pour continuer", "Presiona ⤓ para continuar", "Pressione ⤓ para continuar", "按⤓来开始", "㩒⤓繼續", "Нажмите ⤓ чтобы продолжить", "Drücke ⤓ Um Fortzufahren")
}

/// The label of the language setting.
pub open spec fn spec_text_language(l: Lang) -> &'static str {
    match l {
        Lang::En => "Language",
        Lang::Jp => "言語",
        Lang::Fr => "Langue",
        Lang::Es => "Idioma",
        Lang::Pt => "Idioma",
        Lang::Zh => "语言",
        Lang::Cn => "語言",
        Lang::Ru => "Язык",
        Lang::De => "Sprache",
    }
}

/// The label of the language setting.
pub fn text_language() -> (s: LanguageString)
    ensures
        forall|l: Lang| #[trigger] s.spec_index(l) == spec_text_language(l),
{
    LanguageString::new("Language", "言語", "Langue", "Idioma", "Idioma", "语言", "語言", "Язык", "Sprache")
}

/// The label of the back button.
pub open spec fn spec_text_back(l: Lang) -> &'static str {
    match l {
        Lang::En => "Back",
        Lang::Jp => "戻る",
        Lang::Fr => "Retour",
        Lang::Es => "Atrás",
        Lang::Pt => "Voltar",
        Lang::Zh => "返回",
        Lang::Cn => "返回",
        Lang::Ru => "Назаԭ",
        Lang::De => "Zurück",
    }
}

/// The label of the back button.
pub fn text_back() -> (s: LanguageString)
    ensures
        forall|l: Lang| #[trigger] s.spec_index(l) == spec_text_back(l),
{
    LanguageString::new("Back", "戻る", "Retour", "Atrás", "Voltar", "返回", "返回", "Назаԭ", "Zurück")
}

/// The label of the confirm button.
pub open spec fn spec_text_ok(l: Lang) -> &'static str {
    match l {
        Lang::En => "OK",
        Lang::Jp => "OK",
        Lang::Fr => "OK",
        Lang::Es => "OK",
        Lang::Pt => "OK",
        Lang::Zh => "好",
        Lang::Cn => "好",
        Lang::Ru => "ОК",
        Lang::De => "OK",
    }
}

/// The label of the confirm button.
pub fn text_ok() -> (s: LanguageString)
    ensures
        forall|l: Lang| #[trigger] s.spec_index(l) == spec_text_ok(l),
{
    LanguageString::new("OK", "OK", "OK", "OK", "OK", "好", "好", "ОК", "OK")
}

/// The label of the button that connects to (`!connected`) or disconnects from a network.
pub open spec fn connect_label(connected: bool, l: Lang) -> &'static str {
    if !connected {
        match l {
            Lang::En => "Connect",
            Lang::Jp => "接続",
            Lang::Fr => "Se connecter",
            Lang::Es => "Conectar",
            Lang::Pt => "Conectar",
            Lang::Zh => "连线",
            Lang::Cn => "連線",
            Lang::Ru => "Подключить",
            Lang::De => "Verbinden",
        }
    } else {
        match l {
            Lang::En => "Disconnect",
            Lang::Jp => "切断",
            Lang::Fr => "Se déconnecter",
            Lang::Es => "Desconectar",
            Lang::Pt => "Disconectar",
            Lang::Zh => "断开",
            Lang::Cn => "斷開",
            Lang::Ru => "Отключить",
            Lang::De => "Trennen",
        }
    }
}

/// The label of the button that connects to a Wi-Fi network.
pub fn text_connect() -> (s: LanguageString)
    ensures
        forall|l: Lang| #[trigger] s.spec_index(l) == connect_label(false, l),
{
    LanguageString::new("Connect", "接続", "Se connecter", "Conectar", "Conectar", "连线", "連線", "Подключить", "Verbinden")
}

/// The label of the button that disconnects from a Wi-Fi network.
pub fn text_disconnect() -> (s: LanguageString)
    ensures
        forall|l: Lang| #[trigger] s.spec_index(l) == connect_label(true, l),
{
    LanguageString::new("Disconnect", "切断", "Se déconnecter", "Desconectar", "Disconectar", "断开", "斷開", "Отключить", "Trennen")
}

/// The word for a value of the user's own choosing.
pub open spec fn custom_label(l: Lang) -> &'static str {
    match l {
        Lang::En => "Custom",
        Lang::Jp => "カスタム",
        Lang::Fr => "Personnalisé",
        Lang::Es => "Personalizar",
        Lang::Pt => "Personalizado",
        Lang::Zh => "自定",
        Lang::Cn => "自定義",
        Lang::Ru => "кастомная",
        Lang::De => "Benutzerdefiniert",
    }
}

/// The word for a value of the user's own choosing.
pub fn text_custom() -> (s: LanguageString)
    ensures
        forall|l: Lang| #[trigger] s.spec_index(l) == custom_label(l),
{
    LanguageString::new("Custom", "カスタム", "Personnalisé", "Personalizar", "Personalizado", "自定", "自定義", "кастомная", "Benutzerdefiniert")
}

} // verus!
