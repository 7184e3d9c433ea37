//! The designed copy of every message both catalogs carry, per locale.
//! Each catalog method's contract names the text it returns here.

use vstd::prelude::*;

use crate::l10n::plural::PluralCategory;
use crate::l10n::Locale;

verus! {

/// The `locale_tag` message.
pub open spec fn locale_tag_text(l: Locale) -> Seq<char> {
    match l {
        Locale::En => "en"@,
        Locale::Fr => "fr"@,
    }
}

/// The `app_name` message.
pub open spec fn app_name_text(l: Locale) -> Seq<char> {
    match l {
        Locale::En => "Jeliya"@,
        Locale::Fr => "Jeliya"@,
    }
}

/// The `boot_connecting` message.
pub open spec fn boot_connecting_text(l: Locale) -> Seq<char> {
    match l {
        Locale::En => "connecting to the local daemon…"@,
        Locale::Fr => "connexion au démon local…"@,
    }
}

/// The `boot_stopping` message.
pub open spec fn boot_stopping_text(l: Locale) -> Seq<char> {
    match l {
        Locale::En => "stopping — draining accepted work…"@,
        Locale::Fr => "arrêt — vidange du travail accepté…"@,
    }
}

/// The `boot_stopped` message.
pub open spec fn boot_stopped_text(l: Locale) -> Seq<char> {
    match l {
        Locale::En => "stopped"@,
        Locale::Fr => "arrêté"@,
    }
}

/// The `boot_failed` message.
pub open spec fn boot_failed_text(l: Locale) -> Seq<char> {
    match l {
        Locale::En => "the client failed and will not retry"@,
        Locale::Fr => "le client a échoué et ne réessaiera pas"@,
    }
}

/// The `rooms_heading` message.
pub open spec fn rooms_heading_text(l: Locale) -> Seq<char> {
    match l {
        Locale::En => "Rooms"@,
        Locale::Fr => "Salons"@,
    }
}

/// The `rooms_empty` message.
pub open spec fn rooms_empty_text(l: Locale) -> Seq<char> {
    match l {
        Locale::En => "No rooms yet"@,
        Locale::Fr => "Aucun salon"@,
    }
}

/// The `rooms_loading` message.
pub open spec fn rooms_loading_text(l: Locale) -> Seq<char> {
    match l {
        Locale::En => "Loading rooms…"@,
        Locale::Fr => "Chargement des salons…"@,
    }
}

/// The `room_untitled` message.
pub open spec fn room_untitled_text(l: Locale) -> Seq<char> {
    match l {
        Locale::En => "Untitled room"@,
        Locale::Fr => "Salon sans titre"@,
    }
}

/// The `center_choose_room` message.
pub open spec fn center_choose_room_text(l: Locale) -> Seq<char> {
    match l {
        Locale::En => "Choose a room"@,
        Locale::Fr => "Choisissez un salon"@,
    }
}

/// The `skip_to_rooms` message.
pub open spec fn skip_to_rooms_text(l: Locale) -> Seq<char> {
    match l {
        Locale::En => "Skip to rooms"@,
        Locale::Fr => "Aller aux salons"@,
    }
}

/// The `skip_to_content` message.
pub open spec fn skip_to_content_text(l: Locale) -> Seq<char> {
    match l {
        Locale::En => "Skip to main content"@,
        Locale::Fr => "Aller au contenu principal"@,
    }
}

/// The `diagnostics_open` message.
pub open spec fn diagnostics_open_text(l: Locale) -> Seq<char> {
    match l {
        Locale::En => "Diagnostics"@,
        Locale::Fr => "Diagnostics"@,
    }
}

/// The `diagnostics_title` message.
pub open spec fn diagnostics_title_text(l: Locale) -> Seq<char> {
    match l {
        Locale::En => "Diagnostics"@,
        Locale::Fr => "Diagnostics"@,
    }
}

/// The `diagnostics_close` message.
pub open spec fn diagnostics_close_text(l: Locale) -> Seq<char> {
    match l {
        Locale::En => "Close"@,
        Locale::Fr => "Fermer"@,
    }
}

/// The `diagnostics_lifecycle_label` message.
pub open spec fn diagnostics_lifecycle_label_text(l: Locale) -> Seq<char> {
    match l {
        Locale::En => "Client lifecycle"@,
        Locale::Fr => "État du client"@,
    }
}

/// The `diagnostics_detail_label` message.
pub open spec fn diagnostics_detail_label_text(l: Locale) -> Seq<char> {
    match l {
        Locale::En => "Last error detail"@,
        Locale::Fr => "Détail de la dernière erreur"@,
    }
}

/// The `diagnostics_no_detail` message.
pub open spec fn diagnostics_no_detail_text(l: Locale) -> Seq<char> {
    match l {
        Locale::En => "No errors recorded."@,
        Locale::Fr => "Aucune erreur enregistrée."@,
    }
}

/// The `err_room_list_title` message.
pub open spec fn err_room_list_title_text(l: Locale) -> Seq<char> {
    match l {
        Locale::En => "Couldn’t load rooms"@,
        Locale::Fr => "Échec du chargement des salons"@,
    }
}

/// The `err_room_list_message` message.
pub open spec fn err_room_list_message_text(l: Locale) -> Seq<char> {
    match l {
        Locale::En => "The room list didn’t load. Jeliya will retry when the connection returns."@,
        Locale::Fr => "La liste des salons ne s’est pas chargée. Jeliya réessaiera au retour de la connexion."@,
    }
}

/// The `err_room_list_terminal_message` message.
pub open spec fn err_room_list_terminal_message_text(l: Locale) -> Seq<char> {
    match l {
        Locale::En => "The room list couldn’t load. Open Diagnostics for details."@,
        Locale::Fr => "La liste des salons n’a pas pu se charger. Ouvrez Diagnostics pour en savoir plus."@,
    }
}

/// The `err_unknown_title` message.
pub open spec fn err_unknown_title_text(l: Locale) -> Seq<char> {
    match l {
        Locale::En => "Something went wrong"@,
        Locale::Fr => "Une erreur est survenue"@,
    }
}

/// The `err_unknown_message` message.
pub open spec fn err_unknown_message_text(l: Locale) -> Seq<char> {
    match l {
        Locale::En => "An unexpected error occurred. See Diagnostics for details."@,
        Locale::Fr => "Une erreur inattendue s’est produite. Voir Diagnostics pour les détails."@,
    }
}

/// The `status_connecting` message.
pub open spec fn status_connecting_text(l: Locale) -> Seq<char> {
    match l {
        Locale::En => "Connecting"@,
        Locale::Fr => "Connexion"@,
    }
}

/// The `status_ready` message.
pub open spec fn status_ready_text(l: Locale) -> Seq<char> {
    match l {
        Locale::En => "Connected"@,
        Locale::Fr => "Connecté"@,
    }
}

/// The `status_interrupted` message.
pub open spec fn status_interrupted_text(l: Locale) -> Seq<char> {
    match l {
        Locale::En => "Reconnecting"@,
        Locale::Fr => "Reconnexion"@,
    }
}

/// The `status_stopping` message.
pub open spec fn status_stopping_text(l: Locale) -> Seq<char> {
    match l {
        Locale::En => "Stopping"@,
        Locale::Fr => "Arrêt"@,
    }
}

/// The `status_stopped` message.
pub open spec fn status_stopped_text(l: Locale) -> Seq<char> {
    match l {
        Locale::En => "Stopped"@,
        Locale::Fr => "Arrêté"@,
    }
}

/// The `status_failed` message.
pub open spec fn status_failed_text(l: Locale) -> Seq<char> {
    match l {
        Locale::En => "Disconnected"@,
        Locale::Fr => "Déconnecté"@,
    }
}

/// The `conn_announcement` message.
pub open spec fn conn_announcement_text(l: Locale, status: Seq<char>) -> Seq<char> {
    match l {
        Locale::En => "Connection status: "@ + status,
        Locale::Fr => "État de la connexion\u{00a0}: "@ + status,
    }
}

/// The `wire_role_authority` message.
pub open spec fn wire_role_authority_text(l: Locale) -> Seq<char> {
    match l {
        Locale::En => "Authority"@,
        Locale::Fr => "Autorité"@,
    }
}

/// The `wire_role_member` message.
pub open spec fn wire_role_member_text(l: Locale) -> Seq<char> {
    match l {
        Locale::En => "Member"@,
        Locale::Fr => "Membre"@,
    }
}

/// The `wire_status_active` message.
pub open spec fn wire_status_active_text(l: Locale) -> Seq<char> {
    match l {
        Locale::En => "Member"@,
        Locale::Fr => "Membre"@,
    }
}

/// The `wire_status_invited` message.
pub open spec fn wire_status_invited_text(l: Locale) -> Seq<char> {
    match l {
        Locale::En => "Invited"@,
        Locale::Fr => "Invité"@,
    }
}

/// The `wire_status_left` message.
pub open spec fn wire_status_left_text(l: Locale) -> Seq<char> {
    match l {
        Locale::En => "Left"@,
        Locale::Fr => "Parti"@,
    }
}

/// The `wire_status_removed` message.
pub open spec fn wire_status_removed_text(l: Locale) -> Seq<char> {
    match l {
        Locale::En => "Removed"@,
        Locale::Fr => "Retiré"@,
    }
}

/// The `wire_status_unknown` message.
pub open spec fn wire_status_unknown_text(l: Locale) -> Seq<char> {
    match l {
        Locale::En => "Unknown"@,
        Locale::Fr => "Inconnu"@,
    }
}

/// The `wire_path_direct` message.
pub open spec fn wire_path_direct_text(l: Locale) -> Seq<char> {
    match l {
        Locale::En => "direct"@,
        Locale::Fr => "direct"@,
    }
}

/// The `wire_path_relay` message.
pub open spec fn wire_path_relay_text(l: Locale) -> Seq<char> {
    match l {
        Locale::En => "relay"@,
        Locale::Fr => "relay"@,
    }
}

/// The `format_percent` message.
pub open spec fn format_percent_text(l: Locale, n: Seq<char>) -> Seq<char> {
    match l {
        Locale::En => n + "%"@,
        Locale::Fr => n + "\u{202f}%"@,
    }
}

/// The `format_bytes_b` message.
pub open spec fn format_bytes_b_text(l: Locale, n: Seq<char>) -> Seq<char> {
    match l {
        Locale::En => n + " B"@,
        Locale::Fr => n + " o"@,
    }
}

/// The `format_bytes_kb` message.
pub open spec fn format_bytes_kb_text(l: Locale, n: Seq<char>) -> Seq<char> {
    match l {
        Locale::En => n + " KB"@,
        Locale::Fr => n + " Ko"@,
    }
}

/// The `format_bytes_mb` message.
pub open spec fn format_bytes_mb_text(l: Locale, n: Seq<char>) -> Seq<char> {
    match l {
        Locale::En => n + " MB"@,
        Locale::Fr => n + " Mo"@,
    }
}

/// The `format_bytes_gb` message.
pub open spec fn format_bytes_gb_text(l: Locale, n: Seq<char>) -> Seq<char> {
    match l {
        Locale::En => n + " GB"@,
        Locale::Fr => n + " Go"@,
    }
}

/// The `format_today` message.
pub open spec fn format_today_text(l: Locale) -> Seq<char> {
    match l {
        Locale::En => "Today"@,
        Locale::Fr => "Aujourd’hui"@,
    }
}

/// The `format_yesterday` message.
pub open spec fn format_yesterday_text(l: Locale) -> Seq<char> {
    match l {
        Locale::En => "Yesterday"@,
        Locale::Fr => "Hier"@,
    }
}

/// The `month_name` message.
pub open spec fn month_name_text(l: Locale, month: u32) -> Option<Seq<char>> {
    match l {
        Locale::En => match month {
            1 => Some("January"@),
            2 => Some("February"@),
            3 => Some("March"@),
            4 => Some("April"@),
            5 => Some("May"@),
            6 => Some("June"@),
            7 => Some("July"@),
            8 => Some("August"@),
            9 => Some("September"@),
            10 => Some("October"@),
            11 => Some("November"@),
            12 => Some("December"@),
            _ => None,
        },
        Locale::Fr => match month {
            1 => Some("janvier"@),
            2 => Some("février"@),
            3 => Some("mars"@),
            4 => Some("avril"@),
            5 => Some("mai"@),
            6 => Some("juin"@),
            7 => Some("juillet"@),
            8 => Some("août"@),
            9 => Some("septembre"@),
            10 => Some("octobre"@),
            11 => Some("novembre"@),
            12 => Some("décembre"@),
            _ => None,
        },
    }
}

/// The `format_just_now` message.
pub open spec fn format_just_now_text(l: Locale) -> Seq<char> {
    match l {
        Locale::En => "just now"@,
        Locale::Fr => "à l’instant"@,
    }
}

/// The `format_minutes_ago` message.
pub open spec fn format_minutes_ago_text(l: Locale, n: Seq<char>) -> Seq<char> {
    match l {
        Locale::En => n + "m ago"@,
        Locale::Fr => "il y a "@ + n + " min"@,
    }
}

/// The `format_hours_ago` message.
pub open spec fn format_hours_ago_text(l: Locale, n: Seq<char>) -> Seq<char> {
    match l {
        Locale::En => n + "h ago"@,
        Locale::Fr => "il y a "@ + n + " h"@,
    }
}

/// The `format_days_ago` message.
pub open spec fn format_days_ago_text(l: Locale, n: Seq<char>) -> Seq<char> {
    match l {
        Locale::En => n + "d ago"@,
        Locale::Fr => "il y a "@ + n + " j"@,
    }
}

/// The `client_status` message.
pub open spec fn client_status_text(l: Locale, lifecycle: Seq<char>) -> Seq<char> {
    match l {
        Locale::En => "client "@ + crate::l10n::tokens::MIDDLE_DOT@ + " "@ + lifecycle,
        Locale::Fr => "client "@ + crate::l10n::tokens::MIDDLE_DOT@ + " "@ + lifecycle,
    }
}

/// The `rooms_count` message.
pub open spec fn rooms_count_text(l: Locale, count_display: Seq<char>, category: PluralCategory) -> Seq<char> {
    match l {
        Locale::En => match category {
            PluralCategory::One => count_display + " room"@,
            PluralCategory::Other => count_display + " rooms"@,
        },
        Locale::Fr => match category {
            PluralCategory::One => count_display + " salon"@,
            PluralCategory::Other => count_display + " salons"@,
        },
    }
}

/// The `nav_global_label` message.
pub open spec fn nav_global_label_text(l: Locale) -> Seq<char> {
    match l {
        Locale::En => "Primary"@,
        Locale::Fr => "Principal"@,
    }
}

/// The `dest_rooms` message.
pub open spec fn dest_rooms_text(l: Locale) -> Seq<char> {
    match l {
        Locale::En => "Rooms"@,
        Locale::Fr => "Salons"@,
    }
}

/// The `dest_fleet` message.
pub open spec fn dest_fleet_text(l: Locale) -> Seq<char> {
    match l {
        Locale::En => "Agent Fleet"@,
        Locale::Fr => "Flotte d’agents"@,
    }
}

/// The `dest_settings` message.
pub open spec fn dest_settings_text(l: Locale) -> Seq<char> {
    match l {
        Locale::En => "Settings"@,
        Locale::Fr => "Paramètres"@,
    }
}

/// The `onboarding_identity_title` message.
pub open spec fn onboarding_identity_title_text(l: Locale) -> Seq<char> {
    match l {
        Locale::En => "Create your identity"@,
        Locale::Fr => "Créez votre identité"@,
    }
}

/// The `onboarding_identity_body` message.
pub open spec fn onboarding_identity_body_text(l: Locale) -> Seq<char> {
    match l {
        Locale::En => "Your identity is a keypair on this device. There is no account and no password to recover."@,
        Locale::Fr => "Votre identité est une paire de clés sur cet appareil. Il n’y a ni compte ni mot de passe à récupérer."@,
    }
}

/// The `onboarding_create_identity` message.
pub open spec fn onboarding_create_identity_text(l: Locale) -> Seq<char> {
    match l {
        Locale::En => "Create identity"@,
        Locale::Fr => "Créer l’identité"@,
    }
}

/// The `identity_id_label` message.
pub open spec fn identity_id_label_text(l: Locale) -> Seq<char> {
    match l {
        Locale::En => "Your identity"@,
        Locale::Fr => "Votre identité"@,
    }
}

/// The `identity_copy` message.
pub open spec fn identity_copy_text(l: Locale) -> Seq<char> {
    match l {
        Locale::En => "Copy"@,
        Locale::Fr => "Copier"@,
    }
}

/// The `identity_unrecoverable` message.
pub open spec fn identity_unrecoverable_text(l: Locale) -> Seq<char> {
    match l {
        Locale::En => "This is your permanent peer-to-peer identity. It cannot be recovered if lost."@,
        Locale::Fr => "Ceci est votre identité pair-à-pair permanente. Elle est irrécupérable en cas de perte."@,
    }
}

/// The `onboarding_rooms_title` message.
pub open spec fn onboarding_rooms_title_text(l: Locale) -> Seq<char> {
    match l {
        Locale::En => "Start or join a room"@,
        Locale::Fr => "Créez ou rejoignez un salon"@,
    }
}

/// The `onboarding_create_room` message.
pub open spec fn onboarding_create_room_text(l: Locale) -> Seq<char> {
    match l {
        Locale::En => "Create a room"@,
        Locale::Fr => "Créer un salon"@,
    }
}

/// The `room_name_label` message.
pub open spec fn room_name_label_text(l: Locale) -> Seq<char> {
    match l {
        Locale::En => "Room name"@,
        Locale::Fr => "Nom du salon"@,
    }
}

/// The `onboarding_join_room` message.
pub open spec fn onboarding_join_room_text(l: Locale) -> Seq<char> {
    match l {
        Locale::En => "Join with a ticket"@,
        Locale::Fr => "Rejoindre avec un ticket"@,
    }
}

/// The `ticket_label` message.
pub open spec fn ticket_label_text(l: Locale) -> Seq<char> {
    match l {
        Locale::En => "Invite ticket"@,
        Locale::Fr => "Ticket d’invitation"@,
    }
}

/// The `ticket_help` message.
pub open spec fn ticket_help_text(l: Locale) -> Seq<char> {
    match l {
        Locale::En => "Paste an invite ticket a room member shared with you."@,
        Locale::Fr => "Collez un ticket d’invitation qu’un membre du salon a partagé avec vous."@,
    }
}

/// The `self_label_label` message.
pub open spec fn self_label_label_text(l: Locale) -> Seq<char> {
    match l {
        Locale::En => "Your name"@,
        Locale::Fr => "Votre nom"@,
    }
}

/// The `self_label_help` message.
pub open spec fn self_label_help_text(l: Locale) -> Seq<char> {
    match l {
        Locale::En => "Shown on this device only. It is never sent to anyone."@,
        Locale::Fr => "Affiché uniquement sur cet appareil. Il n’est jamais envoyé à personne."@,
    }
}

/// The `settings_heading` message.
pub open spec fn settings_heading_text(l: Locale) -> Seq<char> {
    match l {
        Locale::En => "Settings"@,
        Locale::Fr => "Paramètres"@,
    }
}

/// The `settings_identity_heading` message.
pub open spec fn settings_identity_heading_text(l: Locale) -> Seq<char> {
    match l {
        Locale::En => "Identity"@,
        Locale::Fr => "Identité"@,
    }
}

/// The `settings_language_heading` message.
pub open spec fn settings_language_heading_text(l: Locale) -> Seq<char> {
    match l {
        Locale::En => "Language"@,
        Locale::Fr => "Langue"@,
    }
}

/// The `settings_text_locale_label` message.
pub open spec fn settings_text_locale_label_text(l: Locale) -> Seq<char> {
    match l {
        Locale::En => "Interface language"@,
        Locale::Fr => "Langue de l’interface"@,
    }
}

/// The `settings_formatting_locale_label` message.
pub open spec fn settings_formatting_locale_label_text(l: Locale) -> Seq<char> {
    match l {
        Locale::En => "Number and date format"@,
        Locale::Fr => "Format des nombres et des dates"@,
    }
}

/// The `settings_locale_follow_system` message.
pub open spec fn settings_locale_follow_system_text(l: Locale) -> Seq<char> {
    match l {
        Locale::En => "Follow system"@,
        Locale::Fr => "Suivre le système"@,
    }
}

/// The `settings_session_only_note` message.
pub open spec fn settings_session_only_note_text(l: Locale) -> Seq<char> {
    match l {
        Locale::En => "Applies this session — not saved on this browser."@,
        Locale::Fr => "S’applique à cette session — non enregistré sur ce navigateur."@,
    }
}

/// The `fleet_heading` message.
pub open spec fn fleet_heading_text(l: Locale) -> Seq<char> {
    match l {
        Locale::En => "Agent Fleet"@,
        Locale::Fr => "Flotte d’agents"@,
    }
}

/// The `fleet_loading` message.
pub open spec fn fleet_loading_text(l: Locale) -> Seq<char> {
    match l {
        Locale::En => "Agent Fleet is not available yet."@,
        Locale::Fr => "La flotte d’agents n’est pas encore disponible."@,
    }
}

/// The `room_nav_label` message.
pub open spec fn room_nav_label_text(l: Locale) -> Seq<char> {
    match l {
        Locale::En => "Room"@,
        Locale::Fr => "Salon"@,
    }
}

/// The `room_dest_activity` message.
pub open spec fn room_dest_activity_text(l: Locale) -> Seq<char> {
    match l {
        Locale::En => "Activity"@,
        Locale::Fr => "Activité"@,
    }
}

/// The `room_dest_people` message.
pub open spec fn room_dest_people_text(l: Locale) -> Seq<char> {
    match l {
        Locale::En => "People"@,
        Locale::Fr => "Personnes"@,
    }
}

/// The `room_dest_agents` message.
pub open spec fn room_dest_agents_text(l: Locale) -> Seq<char> {
    match l {
        Locale::En => "Agents"@,
        Locale::Fr => "Agents"@,
    }
}

/// The `room_dest_files` message.
pub open spec fn room_dest_files_text(l: Locale) -> Seq<char> {
    match l {
        Locale::En => "Files"@,
        Locale::Fr => "Fichiers"@,
    }
}

/// The `room_dest_pipes` message.
pub open spec fn room_dest_pipes_text(l: Locale) -> Seq<char> {
    match l {
        Locale::En => "Pipes"@,
        Locale::Fr => "Pipes"@,
    }
}

/// The `room_dest_skeleton` message.
pub open spec fn room_dest_skeleton_text(l: Locale) -> Seq<char> {
    match l {
        Locale::En => "Nothing to show here yet."@,
        Locale::Fr => "Rien à afficher ici pour l’instant."@,
    }
}

/// The `room_unavailable` message.
pub open spec fn room_unavailable_text(l: Locale) -> Seq<char> {
    match l {
        Locale::En => "This room isn’t available on this device. Return to Rooms."@,
        Locale::Fr => "Ce salon n’est pas disponible sur cet appareil. Revenez aux salons."@,
    }
}

/// The `recovery_title` message.
pub open spec fn recovery_title_text(l: Locale) -> Seq<char> {
    match l {
        Locale::En => "Local preferences reset"@,
        Locale::Fr => "Préférences locales réinitialisées"@,
    }
}

/// The `recovery_body` message.
pub open spec fn recovery_body_text(l: Locale) -> Seq<char> {
    match l {
        Locale::En => "Some local preferences couldn’t be read and were reset to their defaults."@,
        Locale::Fr => "Certaines préférences locales n’ont pas pu être lues et ont été réinitialisées."@,
    }
}

/// The `recovery_reset_action` message.
pub open spec fn recovery_reset_action_text(l: Locale) -> Seq<char> {
    match l {
        Locale::En => "Reset local preferences"@,
        Locale::Fr => "Réinitialiser les préférences locales"@,
    }
}

/// The `err_onboarding_identity` message.
pub open spec fn err_onboarding_identity_text(l: Locale) -> Seq<char> {
    match l {
        Locale::En => "Couldn't create your identity"@,
        Locale::Fr => "Échec de la création de votre identité"@,
    }
}

/// The `err_onboarding_identity_body` message.
pub open spec fn err_onboarding_identity_body_text(l: Locale) -> Seq<char> {
    match l {
        Locale::En => "The daemon did not respond. Check your connection and try again."@,
        Locale::Fr => "Le démon n’a pas répondu. Vérifiez votre connexion et réessayez."@,
    }
}

/// The `err_onboarding_room_create` message.
pub open spec fn err_onboarding_room_create_text(l: Locale) -> Seq<char> {
    match l {
        Locale::En => "Couldn't create the room"@,
        Locale::Fr => "Échec de la création du salon"@,
    }
}

/// The `err_onboarding_room_create_body` message.
pub open spec fn err_onboarding_room_create_body_text(l: Locale) -> Seq<char> {
    match l {
        Locale::En => "The daemon did not respond. Check your connection and try again."@,
        Locale::Fr => "Le démon n’a pas répondu. Vérifiez votre connexion et réessayez."@,
    }
}

} // verus!
