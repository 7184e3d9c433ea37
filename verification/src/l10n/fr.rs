//! The French catalog, with French typography (no-break spaces before
//! high punctuation, typographic apostrophes).

use vstd::prelude::*;

use crate::l10n::plural::PluralCategory;
use crate::l10n::{Catalog, Locale};
use crate::text::{owned, push_str};

verus! {

/// The French catalog.
#[derive(Clone, Copy, PartialEq, Eq, Debug)]
pub struct Fr;

impl Catalog for Fr {
    open spec fn locale_spec(&self) -> Locale {
        Locale::Fr
    }

    fn locale_tag(&self) -> (r: &'static str) {
        "fr"
    }

    fn app_name(&self) -> (r: &'static str) {
        "Jeliya"
    }

    fn boot_connecting(&self) -> (r: &'static str) {
        "connexion au démon local…"
    }

    fn boot_stopping(&self) -> (r: &'static str) {
        "arrêt — vidange du travail accepté…"
    }

    fn boot_stopped(&self) -> (r: &'static str) {
        "arrêté"
    }

    fn boot_failed(&self) -> (r: &'static str) {
        "le client a échoué et ne réessaiera pas"
    }

    fn rooms_heading(&self) -> (r: &'static str) {
        "Salons"
    }

    fn rooms_empty(&self) -> (r: &'static str) {
        "Aucun salon"
    }

    fn rooms_loading(&self) -> (r: &'static str) {
        "Chargement des salons…"
    }

    fn room_untitled(&self) -> (r: &'static str) {
        "Salon sans titre"
    }

    fn center_choose_room(&self) -> (r: &'static str) {
        "Choisissez un salon"
    }

    fn skip_to_rooms(&self) -> (r: &'static str) {
        "Aller aux salons"
    }

    fn skip_to_content(&self) -> (r: &'static str) {
        "Aller au contenu principal"
    }

    fn diagnostics_open(&self) -> (r: &'static str) {
        "Diagnostics"
    }

    fn diagnostics_title(&self) -> (r: &'static str) {
        "Diagnostics"
    }

    fn diagnostics_close(&self) -> (r: &'static str) {
        "Fermer"
    }

    fn diagnostics_lifecycle_label(&self) -> (r: &'static str) {
        "État du client"
    }

    fn diagnostics_detail_label(&self) -> (r: &'static str) {
        "Détail de la dernière erreur"
    }

    fn diagnostics_no_detail(&self) -> (r: &'static str) {
        "Aucune erreur enregistrée."
    }

    fn err_room_list_title(&self) -> (r: &'static str) {
        "Échec du chargement des salons"
    }

    fn err_room_list_message(&self) -> (r: &'static str) {
        "La liste des salons ne s’est pas chargée. Jeliya réessaiera au retour de la connexion."
    }

    fn err_room_list_terminal_message(&self) -> (r: &'static str) {
        "La liste des salons n’a pas pu se charger. Ouvrez Diagnostics pour en savoir plus."
    }

    fn err_unknown_title(&self) -> (r: &'static str) {
        "Une erreur est survenue"
    }

    fn err_unknown_message(&self) -> (r: &'static str) {
        "Une erreur inattendue s’est produite. Voir Diagnostics pour les détails."
    }

    fn status_connecting(&self) -> (r: &'static str) {
        "Connexion"
    }

    fn status_ready(&self) -> (r: &'static str) {
        "Connecté"
    }

    fn status_interrupted(&self) -> (r: &'static str) {
        "Reconnexion"
    }

    fn status_stopping(&self) -> (r: &'static str) {
        "Arrêt"
    }

    fn status_stopped(&self) -> (r: &'static str) {
        "Arrêté"
    }

    fn status_failed(&self) -> (r: &'static str) {
        "Déconnecté"
    }

    fn conn_announcement(&self, status: &str) -> (r: String) {
        let mut s = owned("État de la connexion\u{00a0}: ");
        push_str(&mut s, status);
        s
    }

    fn wire_role_authority(&self) -> (r: &'static str) {
        "Autorité"
    }

    fn wire_role_member(&self) -> (r: &'static str) {
        "Membre"
    }

    fn wire_status_active(&self) -> (r: &'static str) {
        "Membre"
    }

    fn wire_status_invited(&self) -> (r: &'static str) {
        "Invité"
    }

    fn wire_status_left(&self) -> (r: &'static str) {
        "Parti"
    }

    fn wire_status_removed(&self) -> (r: &'static str) {
        "Retiré"
    }

    fn wire_status_unknown(&self) -> (r: &'static str) {
        "Inconnu"
    }

    fn wire_path_direct(&self) -> (r: &'static str) {
        "direct"
    }

    fn wire_path_relay(&self) -> (r: &'static str) {
        "relay"
    }

    fn format_percent(&self, n: &str) -> (r: String) {
        let mut s = owned(n);
        push_str(&mut s, "\u{202f}%");
        s
    }

    fn format_bytes_b(&self, n: &str) -> (r: String) {
        let mut s = owned(n);
        push_str(&mut s, " o");
        s
    }

    fn format_bytes_kb(&self, n: &str) -> (r: String) {
        let mut s = owned(n);
        push_str(&mut s, " Ko");
        s
    }

    fn format_bytes_mb(&self, n: &str) -> (r: String) {
        let mut s = owned(n);
        push_str(&mut s, " Mo");
        s
    }

    fn format_bytes_gb(&self, n: &str) -> (r: String) {
        let mut s = owned(n);
        push_str(&mut s, " Go");
        s
    }

    fn format_today(&self) -> (r: &'static str) {
        "Aujourd’hui"
    }

    fn format_yesterday(&self) -> (r: &'static str) {
        "Hier"
    }

    fn month_name(&self, month: u32) -> (r: Option<&'static str>) {
        match month {
            1 => Some("janvier"),
            2 => Some("février"),
            3 => Some("mars"),
            4 => Some("avril"),
            5 => Some("mai"),
            6 => Some("juin"),
            7 => Some("juillet"),
            8 => Some("août"),
            9 => Some("septembre"),
            10 => Some("octobre"),
            11 => Some("novembre"),
            12 => Some("décembre"),
            _ => None,
        }
    }

    fn format_just_now(&self) -> (r: &'static str) {
        "à l’instant"
    }

    fn format_minutes_ago(&self, n: &str) -> (r: String) {
        let mut s = owned("il y a ");
        push_str(&mut s, n);
        push_str(&mut s, " min");
        s
    }

    fn format_hours_ago(&self, n: &str) -> (r: String) {
        let mut s = owned("il y a ");
        push_str(&mut s, n);
        push_str(&mut s, " h");
        s
    }

    fn format_days_ago(&self, n: &str) -> (r: String) {
        let mut s = owned("il y a ");
        push_str(&mut s, n);
        push_str(&mut s, " j");
        s
    }

    fn client_status(&self, lifecycle: &str) -> (r: String) {
        let mut s = owned("client ");
        push_str(&mut s, crate::l10n::tokens::MIDDLE_DOT);
        push_str(&mut s, " ");
        push_str(&mut s, lifecycle);
        s
    }

    fn nav_global_label(&self) -> (r: &'static str) {
        "Principal"
    }

    fn dest_rooms(&self) -> (r: &'static str) {
        "Salons"
    }

    fn dest_fleet(&self) -> (r: &'static str) {
        "Flotte d’agents"
    }

    fn dest_settings(&self) -> (r: &'static str) {
        "Paramètres"
    }

    fn onboarding_identity_title(&self) -> (r: &'static str) {
        "Créez votre identité"
    }

    fn onboarding_identity_body(&self) -> (r: &'static str) {
        "Votre identité est une paire de clés sur cet appareil. Il n’y a ni compte ni mot de passe à récupérer."
    }

    fn onboarding_create_identity(&self) -> (r: &'static str) {
        "Créer l’identité"
    }

    fn identity_id_label(&self) -> (r: &'static str) {
        "Votre identité"
    }

    fn identity_copy(&self) -> (r: &'static str) {
        "Copier"
    }

    fn identity_unrecoverable(&self) -> (r: &'static str) {
        "Ceci est votre identité pair-à-pair permanente. Elle est irrécupérable en cas de perte."
    }

    fn onboarding_rooms_title(&self) -> (r: &'static str) {
        "Créez ou rejoignez un salon"
    }

    fn onboarding_create_room(&self) -> (r: &'static str) {
        "Créer un salon"
    }

    fn room_name_label(&self) -> (r: &'static str) {
        "Nom du salon"
    }

    fn onboarding_join_room(&self) -> (r: &'static str) {
        "Rejoindre avec un ticket"
    }

    fn ticket_label(&self) -> (r: &'static str) {
        "Ticket d’invitation"
    }

    fn ticket_help(&self) -> (r: &'static str) {
        "Collez un ticket d’invitation qu’un membre du salon a partagé avec vous."
    }

    fn self_label_label(&self) -> (r: &'static str) {
        "Votre nom"
    }

    fn self_label_help(&self) -> (r: &'static str) {
        "Affiché uniquement sur cet appareil. Il n’est jamais envoyé à personne."
    }

    fn settings_heading(&self) -> (r: &'static str) {
        "Paramètres"
    }

    fn settings_identity_heading(&self) -> (r: &'static str) {
        "Identité"
    }

    fn settings_language_heading(&self) -> (r: &'static str) {
        "Langue"
    }

    fn settings_text_locale_label(&self) -> (r: &'static str) {
        "Langue de l’interface"
    }

    fn settings_formatting_locale_label(&self) -> (r: &'static str) {
        "Format des nombres et des dates"
    }

    fn settings_locale_follow_system(&self) -> (r: &'static str) {
        "Suivre le système"
    }

    fn settings_session_only_note(&self) -> (r: &'static str) {
        "S’applique à cette session — non enregistré sur ce navigateur."
    }

    fn fleet_heading(&self) -> (r: &'static str) {
        "Flotte d’agents"
    }

    fn fleet_loading(&self) -> (r: &'static str) {
        "La flotte d’agents n’est pas encore disponible."
    }

    fn room_nav_label(&self) -> (r: &'static str) {
        "Salon"
    }

    fn room_dest_activity(&self) -> (r: &'static str) {
        "Activité"
    }

    fn room_dest_people(&self) -> (r: &'static str) {
        "Personnes"
    }

    fn room_dest_agents(&self) -> (r: &'static str) {
        "Agents"
    }

    fn room_dest_files(&self) -> (r: &'static str) {
        "Fichiers"
    }

    fn room_dest_pipes(&self) -> (r: &'static str) {
        "Pipes"
    }

    fn room_dest_skeleton(&self) -> (r: &'static str) {
        "Rien à afficher ici pour l’instant."
    }

    fn room_unavailable(&self) -> (r: &'static str) {
        "Ce salon n’est pas disponible sur cet appareil. Revenez aux salons."
    }

    fn recovery_title(&self) -> (r: &'static str) {
        "Préférences locales réinitialisées"
    }

    fn recovery_body(&self) -> (r: &'static str) {
        "Certaines préférences locales n’ont pas pu être lues et ont été réinitialisées."
    }

    fn recovery_reset_action(&self) -> (r: &'static str) {
        "Réinitialiser les préférences locales"
    }

    fn err_onboarding_identity(&self) -> (r: &'static str) {
        "Échec de la création de votre identité"
    }

    fn err_onboarding_identity_body(&self) -> (r: &'static str) {
        "Le démon n’a pas répondu. Vérifiez votre connexion et réessayez."
    }

    fn err_onboarding_room_create(&self) -> (r: &'static str) {
        "Échec de la création du salon"
    }

    fn err_onboarding_room_create_body(&self) -> (r: &'static str) {
        "Le démon n’a pas répondu. Vérifiez votre connexion et réessayez."
    }

    fn rooms_count(&self, count_display: &str, category: PluralCategory) -> (r: String) {
        match category {
            PluralCategory::One => {
                let mut s = owned(count_display);
                push_str(&mut s, " salon");
                s
            },
            PluralCategory::Other => {
                let mut s = owned(count_display);
                push_str(&mut s, " salons");
                s
            },
        }
    }
}

} // verus!
