use vstd::prelude::*;

verus! {

/// A row of the command catalogue.
pub struct Command {
    pub id: i32,
    pub command: String,
    pub definition: String,
    pub category: String,
}

/// The themes under which the seeded commands are filed.
#[derive(Debug, Clone, Copy, PartialEq, Eq, Structural)]
pub enum Category {
    Files,
    Search,
    Text,
    Archive,
    Permissions,
    Users,
    Processes,
    System,
    Network,
    Docker,
    Git,
}

impl Category {
    /// The name under which the category is stored in the catalogue.
    pub fn name(&self) -> (s: &'static str)
        ensures
            s@ == category_name(*self),
            *self == Category::Files ==> s@ == "fichiers"@,
            *self == Category::Search ==> s@ == "recherche"@,
            *self == Category::Text ==> s@ == "texte"@,
            *self == Category::Archive ==> s@ == "archivage"@,
            *self == Category::Permissions ==> s@ == "permissions"@,
            *self == Category::Users ==> s@ == "utilisateurs"@,
            *self == Category::Processes ==> s@ == "processus"@,
            *self == Category::System ==> s@ == "systeme"@,
            *self == Category::Network ==> s@ == "reseau"@,
            *self == Category::Docker ==> s@ == "docker"@,
            *self == Category::Git ==> s@ == "git"@,
    {
        match self {
            Category::Files => "fichiers",
            Category::Search => "recherche",
            Category::Text => "texte",
            Category::Archive => "archivage",
            Category::Permissions => "permissions",
            Category::Users => "utilisateurs",
            Category::Processes => "processus",
            Category::System => "systeme",
            Category::Network => "reseau",
            Category::Docker => "docker",
            Category::Git => "git",
        }
    }
}

/// The name of a category, as `Category::name` gives it.
pub open spec fn category_name(c: Category) -> Seq<char> {
    match c {
        Category::Files => "fichiers"@,
        Category::Search => "recherche"@,
        Category::Text => "texte"@,
        Category::Archive => "archivage"@,
        Category::Permissions => "permissions"@,
        Category::Users => "utilisateurs"@,
        Category::Processes => "processus"@,
        Category::System => "systeme"@,
        Category::Network => "reseau"@,
        Category::Docker => "docker"@,
        Category::Git => "git"@,
    }
}

/// A command put into an empty catalogue, with its definition and category.
pub struct SeedCommand {
    pub command: &'static str,
    pub definition: &'static str,
    pub category: Category,
}

/// How many commands an empty catalogue is seeded with.
pub open spec fn seed_size() -> nat {
    130
}

/// The catalogue is seeded exactly when it holds no command.
pub open spec fn should_seed(count: int) -> bool {
    count == 0
}

/// Decides, from the number of commands the catalogue holds, whether it is
/// to be seeded.
pub fn needs_seeding(count: i32) -> (r: bool)
    ensures
        r == should_seed(count as int),
{
    count == 0
}

/// A seed entry, as the tables below write them.
pub open spec fn seed_entry(
    command: &'static str,
    definition: &'static str,
    category: Category,
) -> SeedCommand {
    SeedCommand { command, definition, category }
}

/// The seeded commands filed under `Category::Files`, in insertion order.
pub open spec fn files_seed() -> Seq<SeedCommand> {
    seq![
        seed_entry("ls", "Lister les fichiers et dossiers", Category::Files),
        seed_entry("cd", "Changer de repertoire", Category::Files),
        seed_entry("pwd", "Afficher le repertoire courant", Category::Files),
        seed_entry("cp", "Copier des fichiers ou dossiers", Category::Files),
        seed_entry("mv", "Deplacer ou renommer des fichiers", Category::Files),
        seed_entry("rm", "Supprimer des fichiers ou dossiers", Category::Files),
        seed_entry("mkdir", "Creer un repertoire", Category::Files),
        seed_entry("rmdir", "Supprimer un repertoire vide", Category::Files),
        seed_entry("touch", "Creer un fichier vide", Category::Files),
        seed_entry("cat", "Afficher le contenu d'un fichier", Category::Files),
        seed_entry("less", "Lire un fichier page par page", Category::Files),
        seed_entry("head", "Afficher les premieres lignes", Category::Files),
        seed_entry("tail", "Afficher les dernieres lignes", Category::Files),
        seed_entry("ln", "Creer un lien symbolique ou physique", Category::Files),
        seed_entry("file", "Determiner le type d'un fichier", Category::Files),
        seed_entry("stat", "Afficher les infos detaillees d'un fichier", Category::Files),
        seed_entry("tree", "Afficher l'arborescence des dossiers", Category::Files),
        seed_entry("basename", "Extraire le nom de fichier d'un chemin", Category::Files),
        seed_entry("dirname", "Extraire le repertoire d'un chemin", Category::Files),
        seed_entry("realpath", "Afficher le chemin absolu d'un fichier", Category::Files),
    ]
}

/// The seeded commands filed under `Category::Search`, in insertion order.
pub open spec fn search_seed() -> Seq<SeedCommand> {
    seq![
        seed_entry("grep", "Rechercher du texte dans des fichiers", Category::Search),
        seed_entry("find", "Rechercher des fichiers par criteres", Category::Search),
        seed_entry("locate", "Trouver un fichier rapidement via index", Category::Search),
        seed_entry("which", "Trouver l'emplacement d'une commande", Category::Search),
        seed_entry("whereis", "Localiser binaire, source et man d'une commande", Category::Search),
    ]
}

/// The seeded commands filed under `Category::Text`, in insertion order.
pub open spec fn text_seed() -> Seq<SeedCommand> {
    seq![
        seed_entry("wc", "Compter les lignes, mots et caracteres", Category::Text),
        seed_entry("sort", "Trier les lignes d'un fichier", Category::Text),
        seed_entry("uniq", "Supprimer les lignes en double", Category::Text),
        seed_entry("cut", "Extraire des colonnes d'un fichier", Category::Text),
        seed_entry("tr", "Remplacer ou supprimer des caracteres", Category::Text),
        seed_entry("sed", "Editeur de flux pour transformer du texte", Category::Text),
        seed_entry("awk", "Langage de traitement de texte ligne par ligne", Category::Text),
        seed_entry("diff", "Comparer deux fichiers ligne par ligne", Category::Text),
        seed_entry("tee", "Lire stdin et ecrire dans un fichier et stdout", Category::Text),
        seed_entry("xargs", "Construire des commandes a partir de stdin", Category::Text),
    ]
}

/// The seeded commands filed under `Category::Archive`, in insertion order.
pub open spec fn archive_seed() -> Seq<SeedCommand> {
    seq![
        seed_entry("tar", "Archiver et compresser des fichiers", Category::Archive),
        seed_entry("gzip", "Compresser un fichier en .gz", Category::Archive),
        seed_entry("gunzip", "Decompresser un fichier .gz", Category::Archive),
        seed_entry("zip", "Creer une archive .zip", Category::Archive),
        seed_entry("unzip", "Extraire une archive .zip", Category::Archive),
    ]
}

/// The seeded commands filed under `Category::Permissions`, in insertion order.
pub open spec fn permissions_seed() -> Seq<SeedCommand> {
    seq![
        seed_entry("chmod", "Modifier les permissions d'un fichier", Category::Permissions),
        seed_entry("chown", "Changer le proprietaire d'un fichier", Category::Permissions),
        seed_entry("chgrp", "Changer le groupe d'un fichier", Category::Permissions),
        seed_entry("umask", "Definir les permissions par defaut", Category::Permissions),
    ]
}

/// The seeded commands filed under `Category::Users`, in insertion order.
pub open spec fn users_seed() -> Seq<SeedCommand> {
    seq![
        seed_entry("id", "Afficher l'UID, GID et groupes de l'utilisateur", Category::Users),
        seed_entry("whoami", "Afficher le nom de l'utilisateur courant", Category::Users),
        seed_entry("who", "Afficher les utilisateurs connectes", Category::Users),
        seed_entry("w", "Afficher les utilisateurs connectes et leur activite", Category::Users),
        seed_entry("useradd", "Creer un nouvel utilisateur", Category::Users),
        seed_entry("userdel", "Supprimer un utilisateur", Category::Users),
        seed_entry("usermod", "Modifier un compte utilisateur", Category::Users),
        seed_entry("passwd", "Changer le mot de passe d'un utilisateur", Category::Users),
        seed_entry("groupadd", "Creer un nouveau groupe", Category::Users),
        seed_entry("groups", "Afficher les groupes d'un utilisateur", Category::Users),
        seed_entry("su", "Changer d'utilisateur", Category::Users),
        seed_entry("sudo", "Executer en superutilisateur", Category::Users),
    ]
}

/// The seeded commands filed under `Category::Processes`, in insertion order.
pub open spec fn processes_seed() -> Seq<SeedCommand> {
    seq![
        seed_entry("ps", "Afficher les processus en cours", Category::Processes),
        seed_entry("top", "Moniteur de processus temps reel", Category::Processes),
        seed_entry("htop", "Moniteur de processus interactif", Category::Processes),
        seed_entry("kill", "Envoyer un signal a un processus", Category::Processes),
        seed_entry("killall", "Tuer tous les processus par nom", Category::Processes),
        seed_entry("pkill", "Tuer des processus par motif de nom", Category::Processes),
        seed_entry("bg", "Reprendre un processus en arriere-plan", Category::Processes),
        seed_entry("fg", "Reprendre un processus en premier plan", Category::Processes),
        seed_entry("jobs", "Lister les processus en arriere-plan", Category::Processes),
        seed_entry("nohup", "Lancer un processus insensible au logout", Category::Processes),
        seed_entry("nice", "Lancer un processus avec une priorite modifiee", Category::Processes),
        seed_entry("crontab", "Planifier des taches automatiques", Category::Processes),
    ]
}

/// The seeded commands filed under `Category::System`, in insertion order.
pub open spec fn system_seed() -> Seq<SeedCommand> {
    seq![
        seed_entry("uname", "Afficher les infos du systeme", Category::System),
        seed_entry("hostname", "Afficher ou changer le nom de la machine", Category::System),
        seed_entry("uptime", "Afficher le temps de fonctionnement", Category::System),
        seed_entry("date", "Afficher ou modifier la date et l'heure", Category::System),
        seed_entry("cal", "Afficher un calendrier", Category::System),
        seed_entry("df", "Afficher l'espace disque disponible", Category::System),
        seed_entry("du", "Afficher l'espace utilise par des fichiers", Category::System),
        seed_entry("free", "Afficher la memoire disponible", Category::System),
        seed_entry("lsblk", "Lister les peripheriques de stockage", Category::System),
        seed_entry("mount", "Monter un systeme de fichiers", Category::System),
        seed_entry("umount", "Demonter un systeme de fichiers", Category::System),
        seed_entry("dmesg", "Afficher les messages du noyau", Category::System),
        seed_entry("lsof", "Lister les fichiers ouverts", Category::System),
        seed_entry("apt", "Gestionnaire de paquets Debian", Category::System),
        seed_entry("pacman", "Gestionnaire de paquets Arch Linux", Category::System),
        seed_entry("systemctl", "Gerer les services systemd", Category::System),
        seed_entry("journalctl", "Consulter les logs systemd", Category::System),
        seed_entry("shutdown", "Eteindre ou redemarrer la machine", Category::System),
        seed_entry("reboot", "Redemarrer la machine", Category::System),
        seed_entry("history", "Afficher l'historique des commandes", Category::System),
        seed_entry("alias", "Creer un raccourci de commande", Category::System),
        seed_entry("export", "Definir une variable d'environnement", Category::System),
        seed_entry("env", "Afficher les variables d'environnement", Category::System),
        seed_entry("echo", "Afficher du texte dans le terminal", Category::System),
        seed_entry("man", "Afficher le manuel d'une commande", Category::System),
    ]
}

/// The seeded commands filed under `Category::Network`, in insertion order.
pub open spec fn network_seed() -> Seq<SeedCommand> {
    seq![
        seed_entry("ping", "Tester la connectivite reseau", Category::Network),
        seed_entry("ip", "Configurer les interfaces reseau", Category::Network),
        seed_entry("ifconfig", "Afficher la config reseau (ancien)", Category::Network),
        seed_entry("ss", "Afficher les connexions reseau", Category::Network),
        seed_entry("netstat", "Statistiques reseau (ancien)", Category::Network),
        seed_entry("curl", "Transferer des donnees via URL", Category::Network),
        seed_entry("wget", "Telecharger un fichier depuis le web", Category::Network),
        seed_entry("scp", "Copier des fichiers via SSH", Category::Network),
        seed_entry("ssh", "Se connecter a une machine distante", Category::Network),
        seed_entry("rsync", "Synchroniser des fichiers a distance", Category::Network),
        seed_entry("nslookup", "Interroger un serveur DNS", Category::Network),
        seed_entry("dig", "Requete DNS detaillee", Category::Network),
        seed_entry("traceroute", "Tracer le chemin reseau vers un hote", Category::Network),
        seed_entry("nmap", "Scanner les ports d'une machine", Category::Network),
        seed_entry("iptables", "Configurer le pare-feu Linux", Category::Network),
        seed_entry("ufw", "Pare-feu simplifie pour Ubuntu", Category::Network),
    ]
}

/// The seeded commands filed under `Category::Docker`, in insertion order.
pub open spec fn docker_seed() -> Seq<SeedCommand> {
    seq![
        seed_entry("docker build", "Construire une image Docker", Category::Docker),
        seed_entry("docker run", "Lancer un conteneur Docker", Category::Docker),
        seed_entry("docker ps", "Lister les conteneurs en cours", Category::Docker),
        seed_entry("docker stop", "Arreter un conteneur", Category::Docker),
        seed_entry("docker rm", "Supprimer un conteneur", Category::Docker),
        seed_entry("docker images", "Lister les images Docker", Category::Docker),
        seed_entry("docker logs", "Afficher les logs d'un conteneur", Category::Docker),
        seed_entry("docker exec", "Executer une commande dans un conteneur", Category::Docker),
        seed_entry("docker compose up", "Demarrer les services Docker Compose", Category::Docker),
        seed_entry("docker compose down", "Arreter les services Docker Compose", Category::Docker),
    ]
}

/// The seeded commands filed under `Category::Git`, in insertion order.
pub open spec fn git_seed() -> Seq<SeedCommand> {
    seq![
        seed_entry("git init", "Initialiser un depot Git", Category::Git),
        seed_entry("git clone", "Cloner un depot distant", Category::Git),
        seed_entry("git add", "Ajouter des fichiers au staging", Category::Git),
        seed_entry("git commit", "Enregistrer les modifications", Category::Git),
        seed_entry("git push", "Envoyer les commits vers le depot distant", Category::Git),
        seed_entry("git pull", "Recuperer et fusionner les modifications distantes", Category::Git),
        seed_entry("git status", "Afficher l'etat du depot", Category::Git),
        seed_entry("git log", "Afficher l'historique des commits", Category::Git),
        seed_entry("git branch", "Gerer les branches", Category::Git),
        seed_entry("git merge", "Fusionner une branche", Category::Git),
        seed_entry("git diff", "Afficher les differences entre fichiers", Category::Git),
    ]
}

/// Every seeded command with its definition and category, in insertion order.
pub open spec fn seed_table() -> Seq<SeedCommand> {
    files_seed()
        + search_seed()
        + text_seed()
        + archive_seed()
        + permissions_seed()
        + users_seed()
        + processes_seed()
        + system_seed()
        + network_seed()
        + docker_seed()
        + git_seed()
}

/// Appends the commands filed under `Category::Files`.
fn seed_files(seed: &mut Vec<SeedCommand>)
    ensures
        final(seed)@ == old(seed)@ + files_seed(),
{
    let ghost start = seed@;
    seed.push(SeedCommand { command: "ls", definition: "Lister les fichiers et dossiers", category: Category::Files });
    seed.push(SeedCommand { command: "cd", definition: "Changer de repertoire", category: Category::Files });
    seed.push(SeedCommand { command: "pwd", definition: "Afficher le repertoire courant", category: Category::Files });
    seed.push(SeedCommand { command: "cp", definition: "Copier des fichiers ou dossiers", category: Category::Files });
    seed.push(SeedCommand { command: "mv", definition: "Deplacer ou renommer des fichiers", category: Category::Files });
    seed.push(SeedCommand { command: "rm", definition: "Supprimer des fichiers ou dossiers", category: Category::Files });
    seed.push(SeedCommand { command: "mkdir", definition: "Creer un repertoire", category: Category::Files });
    seed.push(SeedCommand { command: "rmdir", definition: "Supprimer un repertoire vide", category: Category::Files });
    seed.push(SeedCommand { command: "touch", definition: "Creer un fichier vide", category: Category::Files });
    seed.push(SeedCommand { command: "cat", definition: "Afficher le contenu d'un fichier", category: Category::Files });
    seed.push(SeedCommand { command: "less", definition: "Lire un fichier page par page", category: Category::Files });
    seed.push(SeedCommand { command: "head", definition: "Afficher les premieres lignes", category: Category::Files });
    seed.push(SeedCommand { command: "tail", definition: "Afficher les dernieres lignes", category: Category::Files });
    seed.push(SeedCommand { command: "ln", definition: "Creer un lien symbolique ou physique", category: Category::Files });
    seed.push(SeedCommand { command: "file", definition: "Determiner le type d'un fichier", category: Category::Files });
    seed.push(SeedCommand { command: "stat", definition: "Afficher les infos detaillees d'un fichier", category: Category::Files });
    seed.push(SeedCommand { command: "tree", definition: "Afficher l'arborescence des dossiers", category: Category::Files });
    seed.push(SeedCommand { command: "basename", definition: "Extraire le nom de fichier d'un chemin", category: Category::Files });
    seed.push(SeedCommand { command: "dirname", definition: "Extraire le repertoire d'un chemin", category: Category::Files });
    seed.push(SeedCommand { command: "realpath", definition: "Afficher le chemin absolu d'un fichier", category: Category::Files });
    assert(seed@ =~= start + files_seed());
}

/// Appends the commands filed under `Category::Search`.
fn seed_search(seed: &mut Vec<SeedCommand>)
    ensures
        final(seed)@ == old(seed)@ + search_seed(),
{
    let ghost start = seed@;
    seed.push(SeedCommand { command: "grep", definition: "Rechercher du texte dans des fichiers", category: Category::Search });
    seed.push(SeedCommand { command: "find", definition: "Rechercher des fichiers par criteres", category: Category::Search });
    seed.push(SeedCommand { command: "locate", definition: "Trouver un fichier rapidement via index", category: Category::Search });
    seed.push(SeedCommand { command: "which", definition: "Trouver l'emplacement d'une commande", category: Category::Search });
    seed.push(SeedCommand { command: "whereis", definition: "Localiser binaire, source et man d'une commande", category: Category::Search });
    assert(seed@ =~= start + search_seed());
}

/// Appends the commands filed under `Category::Text`.
fn seed_text(seed: &mut Vec<SeedCommand>)
    ensures
        final(seed)@ == old(seed)@ + text_seed(),
{
    let ghost start = seed@;
    seed.push(SeedCommand { command: "wc", definition: "Compter les lignes, mots et caracteres", category: Category::Text });
    seed.push(SeedCommand { command: "sort", definition: "Trier les lignes d'un fichier", category: Category::Text });
    seed.push(SeedCommand { command: "uniq", definition: "Supprimer les lignes en double", category: Category::Text });
    seed.push(SeedCommand { command: "cut", definition: "Extraire des colonnes d'un fichier", category: Category::Text });
    seed.push(SeedCommand { command: "tr", definition: "Remplacer ou supprimer des caracteres", category: Category::Text });
    seed.push(SeedCommand { command: "sed", definition: "Editeur de flux pour transformer du texte", category: Category::Text });
    seed.push(SeedCommand { command: "awk", definition: "Langage de traitement de texte ligne par ligne", category: Category::Text });
    seed.push(SeedCommand { command: "diff", definition: "Comparer deux fichiers ligne par ligne", category: Category::Text });
    seed.push(SeedCommand { command: "tee", definition: "Lire stdin et ecrire dans un fichier et stdout", category: Category::Text });
    seed.push(SeedCommand { command: "xargs", definition: "Construire des commandes a partir de stdin", category: Category::Text });
    assert(seed@ =~= start + text_seed());
}

/// Appends the commands filed under `Category::Archive`.
fn seed_archive(seed: &mut Vec<SeedCommand>)
    ensures
        final(seed)@ == old(seed)@ + archive_seed(),
{
    let ghost start = seed@;
    seed.push(SeedCommand { command: "tar", definition: "Archiver et compresser des fichiers", category: Category::Archive });
    seed.push(SeedCommand { command: "gzip", definition: "Compresser un fichier en .gz", category: Category::Archive });
    seed.push(SeedCommand { command: "gunzip", definition: "Decompresser un fichier .gz", category: Category::Archive });
    seed.push(SeedCommand { command: "zip", definition: "Creer une archive .zip", category: Category::Archive });
    seed.push(SeedCommand { command: "unzip", definition: "Extraire une archive .zip", category: Category::Archive });
    assert(seed@ =~= start + archive_seed());
}

/// Appends the commands filed under `Category::Permissions`.
fn seed_permissions(seed: &mut Vec<SeedCommand>)
    ensures
        final(seed)@ == old(seed)@ + permissions_seed(),
{
    let ghost start = seed@;
    seed.push(SeedCommand { command: "chmod", definition: "Modifier les permissions d'un fichier", category: Category::Permissions });
    seed.push(SeedCommand { command: "chown", definition: "Changer le proprietaire d'un fichier", category: Category::Permissions });
    seed.push(SeedCommand { command: "chgrp", definition: "Changer le groupe d'un fichier", category: Category::Permissions });
    seed.push(SeedCommand { command: "umask", definition: "Definir les permissions par defaut", category: Category::Permissions });
    assert(seed@ =~= start + permissions_seed());
}

/// Appends the commands filed under `Category::Users`.
fn seed_users(seed: &mut Vec<SeedCommand>)
    ensures
        final(seed)@ == old(seed)@ + users_seed(),
{
    let ghost start = seed@;
    seed.push(SeedCommand { command: "id", definition: "Afficher l'UID, GID et groupes de l'utilisateur", category: Category::Users });
    seed.push(SeedCommand { command: "whoami", definition: "Afficher le nom de l'utilisateur courant", category: Category::Users });
    seed.push(SeedCommand { command: "who", definition: "Afficher les utilisateurs connectes", category: Category::Users });
    seed.push(SeedCommand { command: "w", definition: "Afficher les utilisateurs connectes et leur activite", category: Category::Users });
    seed.push(SeedCommand { command: "useradd", definition: "Creer un nouvel utilisateur", category: Category::Users });
    seed.push(SeedCommand { command: "userdel", definition: "Supprimer un utilisateur", category: Category::Users });
    seed.push(SeedCommand { command: "usermod", definition: "Modifier un compte utilisateur", category: Category::Users });
    seed.push(SeedCommand { command: "passwd", definition: "Changer le mot de passe d'un utilisateur", category: Category::Users });
    seed.push(SeedCommand { command: "groupadd", definition: "Creer un nouveau groupe", category: Category::Users });
    seed.push(SeedCommand { command: "groups", definition: "Afficher les groupes d'un utilisateur", category: Category::Users });
    seed.push(SeedCommand { command: "su", definition: "Changer d'utilisateur", category: Category::Users });
    seed.push(SeedCommand { command: "sudo", definition: "Executer en superutilisateur", category: Category::Users });
    assert(seed@ =~= start + users_seed());
}

/// Appends the commands filed under `Category::Processes`.
fn seed_processes(seed: &mut Vec<SeedCommand>)
    ensures
        final(seed)@ == old(seed)@ + processes_seed(),
{
    let ghost start = seed@;
    seed.push(SeedCommand { command: "ps", definition: "Afficher les processus en cours", category: Category::Processes });
    seed.push(SeedCommand { command: "top", definition: "Moniteur de processus temps reel", category: Category::Processes });
    seed.push(SeedCommand { command: "htop", definition: "Moniteur de processus interactif", category: Category::Processes });
    seed.push(SeedCommand { command: "kill", definition: "Envoyer un signal a un processus", category: Category::Processes });
    seed.push(SeedCommand { command: "killall", definition: "Tuer tous les processus par nom", category: Category::Processes });
    seed.push(SeedCommand { command: "pkill", definition: "Tuer des processus par motif de nom", category: Category::Processes });
    seed.push(SeedCommand { command: "bg", definition: "Reprendre un processus en arriere-plan", category: Category::Processes });
    seed.push(SeedCommand { command: "fg", definition: "Reprendre un processus en premier plan", category: Category::Processes });
    seed.push(SeedCommand { command: "jobs", definition: "Lister les processus en arriere-plan", category: Category::Processes });
    seed.push(SeedCommand { command: "nohup", definition: "Lancer un processus insensible au logout", category: Category::Processes });
    seed.push(SeedCommand { command: "nice", definition: "Lancer un processus avec une priorite modifiee", category: Category::Processes });
    seed.push(SeedCommand { command: "crontab", definition: "Planifier des taches automatiques", category: Category::Processes });
    assert(seed@ =~= start + processes_seed());
}

/// Appends the commands filed under `Category::System`.
fn seed_system(seed: &mut Vec<SeedCommand>)
    ensures
        final(seed)@ == old(seed)@ + system_seed(),
{
    let ghost start = seed@;
    seed.push(SeedCommand { command: "uname", definition: "Afficher les infos du systeme", category: Category::System });
    seed.push(SeedCommand { command: "hostname", definition: "Afficher ou changer le nom de la machine", category: Category::System });
    seed.push(SeedCommand { command: "uptime", definition: "Afficher le temps de fonctionnement", category: Category::System });
    seed.push(SeedCommand { command: "date", definition: "Afficher ou modifier la date et l'heure", category: Category::System });
    seed.push(SeedCommand { command: "cal", definition: "Afficher un calendrier", category: Category::System });
    seed.push(SeedCommand { command: "df", definition: "Afficher l'espace disque disponible", category: Category::System });
    seed.push(SeedCommand { command: "du", definition: "Afficher l'espace utilise par des fichiers", category: Category::System });
    seed.push(SeedCommand { command: "free", definition: "Afficher la memoire disponible", category: Category::System });
    seed.push(SeedCommand { command: "lsblk", definition: "Lister les peripheriques de stockage", category: Category::System });
    seed.push(SeedCommand { command: "mount", definition: "Monter un systeme de fichiers", category: Category::System });
    seed.push(SeedCommand { command: "umount", definition: "Demonter un systeme de fichiers", category: Category::System });
    seed.push(SeedCommand { command: "dmesg", definition: "Afficher les messages du noyau", category: Category::System });
    seed.push(SeedCommand { command: "lsof", definition: "Lister les fichiers ouverts", category: Category::System });
    seed.push(SeedCommand { command: "apt", definition: "Gestionnaire de paquets Debian", category: Category::System });
    seed.push(SeedCommand { command: "pacman", definition: "Gestionnaire de paquets Arch Linux", category: Category::System });
    seed.push(SeedCommand { command: "systemctl", definition: "Gerer les services systemd", category: Category::System });
    seed.push(SeedCommand { command: "journalctl", definition: "Consulter les logs systemd", category: Category::System });
    seed.push(SeedCommand { command: "shutdown", definition: "Eteindre ou redemarrer la machine", category: Category::System });
    seed.push(SeedCommand { command: "reboot", definition: "Redemarrer la machine", category: Category::System });
    seed.push(SeedCommand { command: "history", definition: "Afficher l'historique des commandes", category: Category::System });
    seed.push(SeedCommand { command: "alias", definition: "Creer un raccourci de commande", category: Category::System });
    seed.push(SeedCommand { command: "export", definition: "Definir une variable d'environnement", category: Category::System });
    seed.push(SeedCommand { command: "env", definition: "Afficher les variables d'environnement", category: Category::System });
    seed.push(SeedCommand { command: "echo", definition: "Afficher du texte dans le terminal", category: Category::System });
    seed.push(SeedCommand { command: "man", definition: "Afficher le manuel d'une commande", category: Category::System });
    assert(seed@ =~= start + system_seed());
}

/// Appends the commands filed under `Category::Network`.
fn seed_network(seed: &mut Vec<SeedCommand>)
    ensures
        final(seed)@ == old(seed)@ + network_seed(),
{
    let ghost start = seed@;
    seed.push(SeedCommand { command: "ping", definition: "Tester la connectivite reseau", category: Category::Network });
    seed.push(SeedCommand { command: "ip", definition: "Configurer les interfaces reseau", category: Category::Network });
    seed.push(SeedCommand { command: "ifconfig", definition: "Afficher la config reseau (ancien)", category: Category::Network });
    seed.push(SeedCommand { command: "ss", definition: "Afficher les connexions reseau", category: Category::Network });
    seed.push(SeedCommand { command: "netstat", definition: "Statistiques reseau (ancien)", category: Category::Network });
    seed.push(SeedCommand { command: "curl", definition: "Transferer des donnees via URL", category: Category::Network });
    seed.push(SeedCommand { command: "wget", definition: "Telecharger un fichier depuis le web", category: Category::Network });
    seed.push(SeedCommand { command: "scp", definition: "Copier des fichiers via SSH", category: Category::Network });
    seed.push(SeedCommand { command: "ssh", definition: "Se connecter a une machine distante", category: Category::Network });
    seed.push(SeedCommand { command: "rsync", definition: "Synchroniser des fichiers a distance", category: Category::Network });
    seed.push(SeedCommand { command: "nslookup", definition: "Interroger un serveur DNS", category: Category::Network });
    seed.push(SeedCommand { command: "dig", definition: "Requete DNS detaillee", category: Category::Network });
    seed.push(SeedCommand { command: "traceroute", definition: "Tracer le chemin reseau vers un hote", category: Category::Network });
    seed.push(SeedCommand { command: "nmap", definition: "Scanner les ports d'une machine", category: Category::Network });
    seed.push(SeedCommand { command: "iptables", definition: "Configurer le pare-feu Linux", category: Category::Network });
    seed.push(SeedCommand { command: "ufw", definition: "Pare-feu simplifie pour Ubuntu", category: Category::Network });
    assert(seed@ =~= start + network_seed());
}

/// Appends the commands filed under `Category::Docker`.
fn seed_docker(seed: &mut Vec<SeedCommand>)
    ensures
        final(seed)@ == old(seed)@ + docker_seed(),
{
    let ghost start = seed@;
    seed.push(SeedCommand { command: "docker build", definition: "Construire une image Docker", category: Category::Docker });
    seed.push(SeedCommand { command: "docker run", definition: "Lancer un conteneur Docker", category: Category::Docker });
    seed.push(SeedCommand { command: "docker ps", definition: "Lister les conteneurs en cours", category: Category::Docker });
    seed.push(SeedCommand { command: "docker stop", definition: "Arreter un conteneur", category: Category::Docker });
    seed.push(SeedCommand { command: "docker rm", definition: "Supprimer un conteneur", category: Category::Docker });
    seed.push(SeedCommand { command: "docker images", definition: "Lister les images Docker", category: Category::Docker });
    seed.push(SeedCommand { command: "docker logs", definition: "Afficher les logs d'un conteneur", category: Category::Docker });
    seed.push(SeedCommand { command: "docker exec", definition: "Executer une commande dans un conteneur", category: Category::Docker });
    seed.push(SeedCommand { command: "docker compose up", definition: "Demarrer les services Docker Compose", category: Category::Docker });
    seed.push(SeedCommand { command: "docker compose down", definition: "Arreter les services Docker Compose", category: Category::Docker });
    assert(seed@ =~= start + docker_seed());
}

/// Appends the commands filed under `Category::Git`.
fn seed_git(seed: &mut Vec<SeedCommand>)
    ensures
        final(seed)@ == old(seed)@ + git_seed(),
{
    let ghost start = seed@;
    seed.push(SeedCommand { command: "git init", definition: "Initialiser un depot Git", category: Category::Git });
    seed.push(SeedCommand { command: "git clone", definition: "Cloner un depot distant", category: Category::Git });
    seed.push(SeedCommand { command: "git add", definition: "Ajouter des fichiers au staging", category: Category::Git });
    seed.push(SeedCommand { command: "git commit", definition: "Enregistrer les modifications", category: Category::Git });
    seed.push(SeedCommand { command: "git push", definition: "Envoyer les commits vers le depot distant", category: Category::Git });
    seed.push(SeedCommand { command: "git pull", definition: "Recuperer et fusionner les modifications distantes", category: Category::Git });
    seed.push(SeedCommand { command: "git status", definition: "Afficher l'etat du depot", category: Category::Git });
    seed.push(SeedCommand { command: "git log", definition: "Afficher l'historique des commits", category: Category::Git });
    seed.push(SeedCommand { command: "git branch", definition: "Gerer les branches", category: Category::Git });
    seed.push(SeedCommand { command: "git merge", definition: "Fusionner une branche", category: Category::Git });
    seed.push(SeedCommand { command: "git diff", definition: "Afficher les differences entre fichiers", category: Category::Git });
    assert(seed@ =~= start + git_seed());
}

/// The commands an empty catalogue is seeded with, in insertion order.
pub fn seed_commands() -> (seed: Vec<SeedCommand>)
    ensures
        seed@ == seed_table(),
        seed.len() == seed_size(),
{
    let mut seed: Vec<SeedCommand> = Vec::new();
    seed_files(&mut seed);
    seed_search(&mut seed);
    seed_text(&mut seed);
    seed_archive(&mut seed);
    seed_permissions(&mut seed);
    seed_users(&mut seed);
    seed_processes(&mut seed);
    seed_system(&mut seed);
    seed_network(&mut seed);
    seed_docker(&mut seed);
    seed_git(&mut seed);
    assert(seed@ =~= seed_table());
    seed
}

/// The catalogue an empty database receives: each seeded command, in order,
/// with the definition a correct answer must give for it and the name of its
/// category.
pub proof fn lemma_seed_pairs()
    ensures
        seed_table().map_values(
            |e: SeedCommand| (e.command@, e.definition@, category_name(e.category)),
        ) == seq![
            ("ls", "Lister les fichiers et dossiers", "fichiers"),
            ("cd", "Changer de repertoire", "fichiers"),
            ("pwd", "Afficher le repertoire courant", "fichiers"),
            ("cp", "Copier des fichiers ou dossiers", "fichiers"),
            ("mv", "Deplacer ou renommer des fichiers", "fichiers"),
            ("rm", "Supprimer des fichiers ou dossiers", "fichiers"),
            ("mkdir", "Creer un repertoire", "fichiers"),
            ("rmdir", "Supprimer un repertoire vide", "fichiers"),
            ("touch", "Creer un fichier vide", "fichiers"),
            ("cat", "Afficher le contenu d'un fichier", "fichiers"),
            ("less", "Lire un fichier page par page", "fichiers"),
            ("head", "Afficher les premieres lignes", "fichiers"),
            ("tail", "Afficher les dernieres lignes", "fichiers"),
            ("ln", "Creer un lien symbolique ou physique", "fichiers"),
            ("file", "Determiner le type d'un fichier", "fichiers"),
            ("stat", "Afficher les infos detaillees d'un fichier", "fichiers"),
            ("tree", "Afficher l'arborescence des dossiers", "fichiers"),
            ("basename", "Extraire le nom de fichier d'un chemin", "fichiers"),
            ("dirname", "Extraire le repertoire d'un chemin", "fichiers"),
            ("realpath", "Afficher le chemin absolu d'un fichier", "fichiers"),
            ("grep", "Rechercher du texte dans des fichiers", "recherche"),
            ("find", "Rechercher des fichiers par criteres", "recherche"),
            ("locate", "Trouver un fichier rapidement via index", "recherche"),
            ("which", "Trouver l'emplacement d'une commande", "recherche"),
            ("whereis", "Localiser binaire, source et man d'une commande", "recherche"),
            ("wc", "Compter les lignes, mots et caracteres", "texte"),
            ("sort", "Trier les lignes d'un fichier", "texte"),
            ("uniq", "Supprimer les lignes en double", "texte"),
            ("cut", "Extraire des colonnes d'un fichier", "texte"),
            ("tr", "Remplacer ou supprimer des caracteres", "texte"),
            ("sed", "Editeur de flux pour transformer du texte", "texte"),
            ("awk", "Langage de traitement de texte ligne par ligne", "texte"),
            ("diff", "Comparer deux fichiers ligne par ligne", "texte"),
            ("tee", "Lire stdin et ecrire dans un fichier et stdout", "texte"),
            ("xargs", "Construire des commandes a partir de stdin", "texte"),
            ("tar", "Archiver et compresser des fichiers", "archivage"),
            ("gzip", "Compresser un fichier en .gz", "archivage"),
            ("gunzip", "Decompresser un fichier .gz", "archivage"),
            ("zip", "Creer une archive .zip", "archivage"),
            ("unzip", "Extraire une archive .zip", "archivage"),
            ("chmod", "Modifier les permissions d'un fichier", "permissions"),
            ("chown", "Changer le proprietaire d'un fichier", "permissions"),
            ("chgrp", "Changer le groupe d'un fichier", "permissions"),
            ("umask", "Definir les permissions par defaut", "permissions"),
            ("id", "Afficher l'UID, GID et groupes de l'utilisateur", "utilisateurs"),
            ("whoami", "Afficher le nom de l'utilisateur courant", "utilisateurs"),
            ("who", "Afficher les utilisateurs connectes", "utilisateurs"),
            ("w", "Afficher les utilisateurs connectes et leur activite", "utilisateurs"),
            ("useradd", "Creer un nouvel utilisateur", "utilisateurs"),
            ("userdel", "Supprimer un utilisateur", "utilisateurs"),
            ("usermod", "Modifier un compte utilisateur", "utilisateurs"),
            ("passwd", "Changer le mot de passe d'un utilisateur", "utilisateurs"),
            ("groupadd", "Creer un nouveau groupe", "utilisateurs"),
            ("groups", "Afficher les groupes d'un utilisateur", "utilisateurs"),
            ("su", "Changer d'utilisateur", "utilisateurs"),
            ("sudo", "Executer en superutilisateur", "utilisateurs"),
            ("ps", "Afficher les processus en cours", "processus"),
            ("top", "Moniteur de processus temps reel", "processus"),
            ("htop", "Moniteur de processus interactif", "processus"),
            ("kill", "Envoyer un signal a un processus", "processus"),
            ("killall", "Tuer tous les processus par nom", "processus"),
            ("pkill", "Tuer des processus par motif de nom", "processus"),
            ("bg", "Reprendre un processus en arriere-plan", "processus"),
            ("fg", "Reprendre un processus en premier plan", "processus"),
            ("jobs", "Lister les processus en arriere-plan", "processus"),
            ("nohup", "Lancer un processus insensible au logout", "processus"),
            ("nice", "Lancer un processus avec une priorite modifiee", "processus"),
            ("crontab", "Planifier des taches automatiques", "processus"),
            ("uname", "Afficher les infos du systeme", "systeme"),
            ("hostname", "Afficher ou changer le nom de la machine", "systeme"),
            ("uptime", "Afficher le temps de fonctionnement", "systeme"),
            ("date", "Afficher ou modifier la date et l'heure", "systeme"),
            ("cal", "Afficher un calendrier", "systeme"),
            ("df", "Afficher l'espace disque disponible", "systeme"),
            ("du", "Afficher l'espace utilise par des fichiers", "systeme"),
            ("free", "Afficher la memoire disponible", "systeme"),
            ("lsblk", "Lister les peripheriques de stockage", "systeme"),
            ("mount", "Monter un systeme de fichiers", "systeme"),
            ("umount", "Demonter un systeme de fichiers", "systeme"),
            ("dmesg", "Afficher les messages du noyau", "systeme"),
            ("lsof", "Lister les fichiers ouverts", "systeme"),
            ("apt", "Gestionnaire de paquets Debian", "systeme"),
            ("pacman", "Gestionnaire de paquets Arch Linux", "systeme"),
            ("systemctl", "Gerer les services systemd", "systeme"),
            ("journalctl", "Consulter les logs systemd", "systeme"),
            ("shutdown", "Eteindre ou redemarrer la machine", "systeme"),
            ("reboot", "Redemarrer la machine", "systeme"),
            ("history", "Afficher l'historique des commandes", "systeme"),
            ("alias", "Creer un raccourci de commande", "systeme"),
            ("export", "Definir une variable d'environnement", "systeme"),
            ("env", "Afficher les variables d'environnement", "systeme"),
            ("echo", "Afficher du texte dans le terminal", "systeme"),
            ("man", "Afficher le manuel d'une commande", "systeme"),
            ("ping", "Tester la connectivite reseau", "reseau"),
            ("ip", "Configurer les interfaces reseau", "reseau"),
            ("ifconfig", "Afficher la config reseau (ancien)", "reseau"),
            ("ss", "Afficher les connexions reseau", "reseau"),
            ("netstat", "Statistiques reseau (ancien)", "reseau"),
            ("curl", "Transferer des donnees via URL", "reseau"),
            ("wget", "Telecharger un fichier depuis le web", "reseau"),
            ("scp", "Copier des fichiers via SSH", "reseau"),
            ("ssh", "Se connecter a une machine distante", "reseau"),
            ("rsync", "Synchroniser des fichiers a distance", "reseau"),
            ("nslookup", "Interroger un serveur DNS", "reseau"),
            ("dig", "Requete DNS detaillee", "reseau"),
            ("traceroute", "Tracer le chemin reseau vers un hote", "reseau"),
            ("nmap", "Scanner les ports d'une machine", "reseau"),
            ("iptables", "Configurer le pare-feu Linux", "reseau"),
            ("ufw", "Pare-feu simplifie pour Ubuntu", "reseau"),
            ("docker build", "Construire une image Docker", "docker"),
            ("docker run", "Lancer un conteneur Docker", "docker"),
            ("docker ps", "Lister les conteneurs en cours", "docker"),
            ("docker stop", "Arreter un conteneur", "docker"),
            ("docker rm", "Supprimer un conteneur", "docker"),
            ("docker images", "Lister les images Docker", "docker"),
            ("docker logs", "Afficher les logs d'un conteneur", "docker"),
            ("docker exec", "Executer une commande dans un conteneur", "docker"),
            ("docker compose up", "Demarrer les services Docker Compose", "docker"),
            ("docker compose down", "Arreter les services Docker Compose", "docker"),
            ("git init", "Initialiser un depot Git", "git"),
            ("git clone", "Cloner un depot distant", "git"),
            ("git add", "Ajouter des fichiers au staging", "git"),
            ("git commit", "Enregistrer les modifications", "git"),
            ("git push", "Envoyer les commits vers le depot distant", "git"),
            ("git pull", "Recuperer et fusionner les modifications distantes", "git"),
            ("git status", "Afficher l'etat du depot", "git"),
            ("git log", "Afficher l'historique des commits", "git"),
            ("git branch", "Gerer les branches", "git"),
            ("git merge", "Fusionner une branche", "git"),
            ("git diff", "Afficher les differences entre fichiers", "git"),
        ].map_values(|row: (&str, &str, &str)| (row.0@, row.1@, row.2@)),
{
}

/// No seeded command or definition is empty.
pub proof fn lemma_seed_nonempty()
    ensures
        forall|i: int|
            #![trigger seed_table()[i]]
            0 <= i < seed_table().len() ==> seed_table()[i].command@.len() > 0
                && seed_table()[i].definition@.len() > 0,
{
    reveal_strlit("ls");
    reveal_strlit("cd");
    reveal_strlit("pwd");
    reveal_strlit("cp");
    reveal_strlit("mv");
    reveal_strlit("rm");
    reveal_strlit("mkdir");
    reveal_strlit("rmdir");
    reveal_strlit("touch");
    reveal_strlit("cat");
    reveal_strlit("less");
    reveal_strlit("head");
    reveal_strlit("tail");
    reveal_strlit("ln");
    reveal_strlit("file");
    reveal_strlit("stat");
    reveal_strlit("tree");
    reveal_strlit("basename");
    reveal_strlit("dirname");
    reveal_strlit("realpath");
    reveal_strlit("grep");
    reveal_strlit("find");
    reveal_strlit("locate");
    reveal_strlit("which");
    reveal_strlit("whereis");
    reveal_strlit("wc");
    reveal_strlit("sort");
    reveal_strlit("uniq");
    reveal_strlit("cut");
    reveal_strlit("tr");
    reveal_strlit("sed");
    reveal_strlit("awk");
    reveal_strlit("diff");
    reveal_strlit("tee");
    reveal_strlit("xargs");
    reveal_strlit("tar");
    reveal_strlit("gzip");
    reveal_strlit("gunzip");
    reveal_strlit("zip");
    reveal_strlit("unzip");
    reveal_strlit("chmod");
    reveal_strlit("chown");
    reveal_strlit("chgrp");
    reveal_strlit("umask");
    reveal_strlit("id");
    reveal_strlit("whoami");
    reveal_strlit("who");
    reveal_strlit("w");
    reveal_strlit("useradd");
    reveal_strlit("userdel");
    reveal_strlit("usermod");
    reveal_strlit("passwd");
    reveal_strlit("groupadd");
    reveal_strlit("groups");
    reveal_strlit("su");
    reveal_strlit("sudo");
    reveal_strlit("ps");
    reveal_strlit("top");
    reveal_strlit("htop");
    reveal_strlit("kill");
    reveal_strlit("killall");
    reveal_strlit("pkill");
    reveal_strlit("bg");
    reveal_strlit("fg");
    reveal_strlit("jobs");
    reveal_strlit("nohup");
    reveal_strlit("nice");
    reveal_strlit("crontab");
    reveal_strlit("uname");
    reveal_strlit("hostname");
    reveal_strlit("uptime");
    reveal_strlit("date");
    reveal_strlit("cal");
    reveal_strlit("df");
    reveal_strlit("du");
    reveal_strlit("free");
    reveal_strlit("lsblk");
    reveal_strlit("mount");
    reveal_strlit("umount");
    reveal_strlit("dmesg");
    reveal_strlit("lsof");
    reveal_strlit("apt");
    reveal_strlit("pacman");
    reveal_strlit("systemctl");
    reveal_strlit("journalctl");
    reveal_strlit("shutdown");
    reveal_strlit("reboot");
    reveal_strlit("history");
    reveal_strlit("alias");
    reveal_strlit("export");
    reveal_strlit("env");
    reveal_strlit("echo");
    reveal_strlit("man");
    reveal_strlit("ping");
    reveal_strlit("ip");
    reveal_strlit("ifconfig");
    reveal_strlit("ss");
    reveal_strlit("netstat");
    reveal_strlit("curl");
    reveal_strlit("wget");
    reveal_strlit("scp");
    reveal_strlit("ssh");
    reveal_strlit("rsync");
    reveal_strlit("nslookup");
    reveal_strlit("dig");
    reveal_strlit("traceroute");
    reveal_strlit("nmap");
    reveal_strlit("iptables");
    reveal_strlit("ufw");
    reveal_strlit("docker build");
    reveal_strlit("docker run");
    reveal_strlit("docker ps");
    reveal_strlit("docker stop");
    reveal_strlit("docker rm");
    reveal_strlit("docker images");
    reveal_strlit("docker logs");
    reveal_strlit("docker exec");
    reveal_strlit("docker compose up");
    reveal_strlit("docker compose down");
    reveal_strlit("git init");
    reveal_strlit("git clone");
    reveal_strlit("git add");
    reveal_strlit("git commit");
    reveal_strlit("git push");
    reveal_strlit("git pull");
    reveal_strlit("git status");
    reveal_strlit("git log");
    reveal_strlit("git branch");
    reveal_strlit("git merge");
    reveal_strlit("git diff");
    reveal_strlit("Lister les fichiers et dossiers");
    reveal_strlit("Changer de repertoire");
    reveal_strlit("Afficher le repertoire courant");
    reveal_strlit("Copier des fichiers ou dossiers");
    reveal_strlit("Deplacer ou renommer des fichiers");
    reveal_strlit("Supprimer des fichiers ou dossiers");
    reveal_strlit("Creer un repertoire");
    reveal_strlit("Supprimer un repertoire vide");
    reveal_strlit("Creer un fichier vide");
    reveal_strlit("Afficher le contenu d'un fichier");
    reveal_strlit("Lire un fichier page par page");
    reveal_strlit("Afficher les premieres lignes");
    reveal_strlit("Afficher les dernieres lignes");
    reveal_strlit("Creer un lien symbolique ou physique");
    reveal_strlit("Determiner le type d'un fichier");
    reveal_strlit("Afficher les infos detaillees d'un fichier");
    reveal_strlit("Afficher l'arborescence des dossiers");
    reveal_strlit("Extraire le nom de fichier d'un chemin");
    reveal_strlit("Extraire le repertoire d'un chemin");
    reveal_strlit("Afficher le chemin absolu d'un fichier");
    reveal_strlit("Rechercher du texte dans des fichiers");
    reveal_strlit("Rechercher des fichiers par criteres");
    reveal_strlit("Trouver un fichier rapidement via index");
    reveal_strlit("Trouver l'emplacement d'une commande");
    reveal_strlit("Localiser binaire, source et man d'une commande");
    reveal_strlit("Compter les lignes, mots et caracteres");
    reveal_strlit("Trier les lignes d'un fichier");
    reveal_strlit("Supprimer les lignes en double");
    reveal_strlit("Extraire des colonnes d'un fichier");
    reveal_strlit("Remplacer ou supprimer des caracteres");
    reveal_strlit("Editeur de flux pour transformer du texte");
    reveal_strlit("Langage de traitement de texte ligne par ligne");
    reveal_strlit("Comparer deux fichiers ligne par ligne");
    reveal_strlit("Lire stdin et ecrire dans un fichier et stdout");
    reveal_strlit("Construire des commandes a partir de stdin");
    reveal_strlit("Archiver et compresser des fichiers");
    reveal_strlit("Compresser un fichier en .gz");
    reveal_strlit("Decompresser un fichier .gz");
    reveal_strlit("Creer une archive .zip");
    reveal_strlit("Extraire une archive .zip");
    reveal_strlit("Modifier les permissions d'un fichier");
    reveal_strlit("Changer le proprietaire d'un fichier");
    reveal_strlit("Changer le groupe d'un fichier");
    reveal_strlit("Definir les permissions par defaut");
    reveal_strlit("Afficher l'UID, GID et groupes de l'utilisateur");
    reveal_strlit("Afficher le nom de l'utilisateur courant");
    reveal_strlit("Afficher les utilisateurs connectes");
    reveal_strlit("Afficher les utilisateurs connectes et leur activite");
    reveal_strlit("Creer un nouvel utilisateur");
    reveal_strlit("Supprimer un utilisateur");
    reveal_strlit("Modifier un compte utilisateur");
    reveal_strlit("Changer le mot de passe d'un utilisateur");
    reveal_strlit("Creer un nouveau groupe");
    reveal_strlit("Afficher les groupes d'un utilisateur");
    reveal_strlit("Changer d'utilisateur");
    reveal_strlit("Executer en superutilisateur");
    reveal_strlit("Afficher les processus en cours");
    reveal_strlit("Moniteur de processus temps reel");
    reveal_strlit("Moniteur de processus interactif");
    reveal_strlit("Envoyer un signal a un processus");
    reveal_strlit("Tuer tous les processus par nom");
    reveal_strlit("Tuer des processus par motif de nom");
    reveal_strlit("Reprendre un processus en arriere-plan");
    reveal_strlit("Reprendre un processus en premier plan");
    reveal_strlit("Lister les processus en arriere-plan");
    reveal_strlit("Lancer un processus insensible au logout");
    reveal_strlit("Lancer un processus avec une priorite modifiee");
    reveal_strlit("Planifier des taches automatiques");
    reveal_strlit("Afficher les infos du systeme");
    reveal_strlit("Afficher ou changer le nom de la machine");
    reveal_strlit("Afficher le temps de fonctionnement");
    reveal_strlit("Afficher ou modifier la date et l'heure");
    reveal_strlit("Afficher un calendrier");
    reveal_strlit("Afficher l'espace disque disponible");
    reveal_strlit("Afficher l'espace utilise par des fichiers");
    reveal_strlit("Afficher la memoire disponible");
    reveal_strlit("Lister les peripheriques de stockage");
    reveal_strlit("Monter un systeme de fichiers");
    reveal_strlit("Demonter un systeme de fichiers");
    reveal_strlit("Afficher les messages du noyau");
    reveal_strlit("Lister les fichiers ouverts");
    reveal_strlit("Gestionnaire de paquets Debian");
    reveal_strlit("Gestionnaire de paquets Arch Linux");
    reveal_strlit("Gerer les services systemd");
    reveal_strlit("Consulter les logs systemd");
    reveal_strlit("Eteindre ou redemarrer la machine");
    reveal_strlit("Redemarrer la machine");
    reveal_strlit("Afficher l'historique des commandes");
    reveal_strlit("Creer un raccourci de commande");
    reveal_strlit("Definir une variable d'environnement");
    reveal_strlit("Afficher les variables d'environnement");
    reveal_strlit("Afficher du texte dans le terminal");
    reveal_strlit("Afficher le manuel d'une commande");
    reveal_strlit("Tester la connectivite reseau");
    reveal_strlit("Configurer les interfaces reseau");
    reveal_strlit("Afficher la config reseau (ancien)");
    reveal_strlit("Afficher les connexions reseau");
    reveal_strlit("Statistiques reseau (ancien)");
    reveal_strlit("Transferer des donnees via URL");
    reveal_strlit("Telecharger un fichier depuis le web");
    reveal_strlit("Copier des fichiers via SSH");
    reveal_strlit("Se connecter a une machine distante");
    reveal_strlit("Synchroniser des fichiers a distance");
    reveal_strlit("Interroger un serveur DNS");
    reveal_strlit("Requete DNS detaillee");
    reveal_strlit("Tracer le chemin reseau vers un hote");
    reveal_strlit("Scanner les ports d'une machine");
    reveal_strlit("Configurer le pare-feu Linux");
    reveal_strlit("Pare-feu simplifie pour Ubuntu");
    reveal_strlit("Construire une image Docker");
    reveal_strlit("Lancer un conteneur Docker");
    reveal_strlit("Lister les conteneurs en cours");
    reveal_strlit("Arreter un conteneur");
    reveal_strlit("Supprimer un conteneur");
    reveal_strlit("Lister les images Docker");
    reveal_strlit("Afficher les logs d'un conteneur");
    reveal_strlit("Executer une commande dans un conteneur");
    reveal_strlit("Demarrer les services Docker Compose");
    reveal_strlit("Arreter les services Docker Compose");
    reveal_strlit("Initialiser un depot Git");
    reveal_strlit("Cloner un depot distant");
    reveal_strlit("Ajouter des fichiers au staging");
    reveal_strlit("Enregistrer les modifications");
    reveal_strlit("Envoyer les commits vers le depot distant");
    reveal_strlit("Recuperer et fusionner les modifications distantes");
    reveal_strlit("Afficher l'etat du depot");
    reveal_strlit("Afficher l'historique des commits");
    reveal_strlit("Gerer les branches");
    reveal_strlit("Fusionner une branche");
    reveal_strlit("Afficher les differences entre fichiers");
}

/// The lengths of the `Category::Files` command names, and the letters at which
/// they differ from other names of the same length.
proof fn lemma_files_names()
    ensures
        "ls"@.len() == 2,
        "ls"@[0] == 'l',
        "ls"@[1] == 's',
        "cd"@.len() == 2,
        "cd"@[0] == 'c',
        "cd"@[1] == 'd',
        "pwd"@.len() == 3,
        "pwd"@[0] == 'p',
        "cp"@.len() == 2,
        "cp"@[0] == 'c',
        "cp"@[1] == 'p',
        "mv"@.len() == 2,
        "mv"@[0] == 'm',
        "rm"@.len() == 2,
        "rm"@[0] == 'r',
        "mkdir"@.len() == 5,
        "mkdir"@[0] == 'm',
        "mkdir"@[1] == 'k',
        "rmdir"@.len() == 5,
        "rmdir"@[0] == 'r',
        "rmdir"@[1] == 'm',
        "touch"@.len() == 5,
        "touch"@[0] == 't',
        "cat"@.len() == 3,
        "cat"@[0] == 'c',
        "cat"@[1] == 'a',
        "cat"@[2] == 't',
        "less"@.len() == 4,
        "less"@[0] == 'l',
        "less"@[1] == 'e',
        "head"@.len() == 4,
        "head"@[0] == 'h',
        "head"@[1] == 'e',
        "tail"@.len() == 4,
        "tail"@[0] == 't',
        "tail"@[1] == 'a',
        "ln"@.len() == 2,
        "ln"@[0] == 'l',
        "ln"@[1] == 'n',
        "file"@.len() == 4,
        "file"@[0] == 'f',
        "file"@[1] == 'i',
        "file"@[2] == 'l',
        "stat"@.len() == 4,
        "stat"@[0] == 's',
        "stat"@[1] == 't',
        "tree"@.len() == 4,
        "tree"@[0] == 't',
        "tree"@[1] == 'r',
        "basename"@.len() == 8,
        "basename"@[0] == 'b',
        "dirname"@.len() == 7,
        "dirname"@[0] == 'd',
        "realpath"@.len() == 8,
        "realpath"@[0] == 'r',
{
    reveal_strlit("ls");
    reveal_strlit("cd");
    reveal_strlit("pwd");
    reveal_strlit("cp");
    reveal_strlit("mv");
    reveal_strlit("rm");
    reveal_strlit("mkdir");
    reveal_strlit("rmdir");
    reveal_strlit("touch");
    reveal_strlit("cat");
    reveal_strlit("less");
    reveal_strlit("head");
    reveal_strlit("tail");
    reveal_strlit("ln");
    reveal_strlit("file");
    reveal_strlit("stat");
    reveal_strlit("tree");
    reveal_strlit("basename");
    reveal_strlit("dirname");
    reveal_strlit("realpath");
}

/// The lengths of the `Category::Search` command names, and the letters at which
/// they differ from other names of the same length.
proof fn lemma_search_names()
    ensures
        "grep"@.len() == 4,
        "grep"@[0] == 'g',
        "grep"@[1] == 'r',
        "find"@.len() == 4,
        "find"@[0] == 'f',
        "find"@[1] == 'i',
        "find"@[2] == 'n',
        "locate"@.len() == 6,
        "locate"@[0] == 'l',
        "which"@.len() == 5,
        "which"@[0] == 'w',
        "whereis"@.len() == 7,
        "whereis"@[0] == 'w',
{
    reveal_strlit("grep");
    reveal_strlit("find");
    reveal_strlit("locate");
    reveal_strlit("which");
    reveal_strlit("whereis");
}

/// The lengths of the `Category::Text` command names, and the letters at which
/// they differ from other names of the same length.
proof fn lemma_text_names()
    ensures
        "wc"@.len() == 2,
        "wc"@[0] == 'w',
        "sort"@.len() == 4,
        "sort"@[0] == 's',
        "sort"@[1] == 'o',
        "uniq"@.len() == 4,
        "uniq"@[0] == 'u',
        "cut"@.len() == 3,
        "cut"@[0] == 'c',
        "cut"@[1] == 'u',
        "tr"@.len() == 2,
        "tr"@[0] == 't',
        "sed"@.len() == 3,
        "sed"@[0] == 's',
        "sed"@[1] == 'e',
        "awk"@.len() == 3,
        "awk"@[0] == 'a',
        "awk"@[1] == 'w',
        "diff"@.len() == 4,
        "diff"@[0] == 'd',
        "diff"@[1] == 'i',
        "tee"@.len() == 3,
        "tee"@[0] == 't',
        "tee"@[1] == 'e',
        "xargs"@.len() == 5,
        "xargs"@[0] == 'x',
{
    reveal_strlit("wc");
    reveal_strlit("sort");
    reveal_strlit("uniq");
    reveal_strlit("cut");
    reveal_strlit("tr");
    reveal_strlit("sed");
    reveal_strlit("awk");
    reveal_strlit("diff");
    reveal_strlit("tee");
    reveal_strlit("xargs");
}

/// The lengths of the `Category::Archive` command names, and the letters at which
/// they differ from other names of the same length.
proof fn lemma_archive_names()
    ensures
        "tar"@.len() == 3,
        "tar"@[0] == 't',
        "tar"@[1] == 'a',
        "gzip"@.len() == 4,
        "gzip"@[0] == 'g',
        "gzip"@[1] == 'z',
        "gunzip"@.len() == 6,
        "gunzip"@[0] == 'g',
        "gunzip"@[1] == 'u',
        "zip"@.len() == 3,
        "zip"@[0] == 'z',
        "unzip"@.len() == 5,
        "unzip"@[0] == 'u',
        "unzip"@[1] == 'n',
        "unzip"@[2] == 'z',
{
    reveal_strlit("tar");
    reveal_strlit("gzip");
    reveal_strlit("gunzip");
    reveal_strlit("zip");
    reveal_strlit("unzip");
}

/// The lengths of the `Category::Permissions` command names, and the letters at which
/// they differ from other names of the same length.
proof fn lemma_permissions_names()
    ensures
        "chmod"@.len() == 5,
        "chmod"@[0] == 'c',
        "chmod"@[2] == 'm',
        "chown"@.len() == 5,
        "chown"@[0] == 'c',
        "chown"@[2] == 'o',
        "chgrp"@.len() == 5,
        "chgrp"@[0] == 'c',
        "chgrp"@[2] == 'g',
        "umask"@.len() == 5,
        "umask"@[0] == 'u',
        "umask"@[1] == 'm',
{
    reveal_strlit("chmod");
    reveal_strlit("chown");
    reveal_strlit("chgrp");
    reveal_strlit("umask");
}

/// The lengths of the `Category::Users` command names, and the letters at which
/// they differ from other names of the same length.
proof fn lemma_users_names()
    ensures
        "id"@.len() == 2,
        "id"@[0] == 'i',
        "id"@[1] == 'd',
        "whoami"@.len() == 6,
        "whoami"@[0] == 'w',
        "who"@.len() == 3,
        "who"@[0] == 'w',
        "w"@.len() == 1,
        "useradd"@.len() == 7,
        "useradd"@[0] == 'u',
        "useradd"@[4] == 'a',
        "userdel"@.len() == 7,
        "userdel"@[0] == 'u',
        "userdel"@[4] == 'd',
        "usermod"@.len() == 7,
        "usermod"@[0] == 'u',
        "usermod"@[4] == 'm',
        "passwd"@.len() == 6,
        "passwd"@[0] == 'p',
        "passwd"@[2] == 's',
        "groupadd"@.len() == 8,
        "groupadd"@[0] == 'g',
        "groupadd"@[1] == 'r',
        "groups"@.len() == 6,
        "groups"@[0] == 'g',
        "groups"@[1] == 'r',
        "su"@.len() == 2,
        "su"@[0] == 's',
        "su"@[1] == 'u',
        "sudo"@.len() == 4,
        "sudo"@[0] == 's',
        "sudo"@[1] == 'u',
{
    reveal_strlit("id");
    reveal_strlit("whoami");
    reveal_strlit("who");
    reveal_strlit("w");
    reveal_strlit("useradd");
    reveal_strlit("userdel");
    reveal_strlit("usermod");
    reveal_strlit("passwd");
    reveal_strlit("groupadd");
    reveal_strlit("groups");
    reveal_strlit("su");
    reveal_strlit("sudo");
}

/// The lengths of the `Category::Processes` command names, and the letters at which
/// they differ from other names of the same length.
proof fn lemma_processes_names()
    ensures
        "ps"@.len() == 2,
        "ps"@[0] == 'p',
        "top"@.len() == 3,
        "top"@[0] == 't',
        "top"@[1] == 'o',
        "htop"@.len() == 4,
        "htop"@[0] == 'h',
        "htop"@[1] == 't',
        "kill"@.len() == 4,
        "kill"@[0] == 'k',
        "killall"@.len() == 7,
        "killall"@[0] == 'k',
        "pkill"@.len() == 5,
        "pkill"@[0] == 'p',
        "bg"@.len() == 2,
        "bg"@[0] == 'b',
        "fg"@.len() == 2,
        "fg"@[0] == 'f',
        "jobs"@.len() == 4,
        "jobs"@[0] == 'j',
        "nohup"@.len() == 5,
        "nohup"@[0] == 'n',
        "nice"@.len() == 4,
        "nice"@[0] == 'n',
        "nice"@[1] == 'i',
        "crontab"@.len() == 7,
        "crontab"@[0] == 'c',
{
    reveal_strlit("ps");
    reveal_strlit("top");
    reveal_strlit("htop");
    reveal_strlit("kill");
    reveal_strlit("killall");
    reveal_strlit("pkill");
    reveal_strlit("bg");
    reveal_strlit("fg");
    reveal_strlit("jobs");
    reveal_strlit("nohup");
    reveal_strlit("nice");
    reveal_strlit("crontab");
}

/// The lengths of the `Category::System` command names, and the letters at which
/// they differ from other names of the same length.
proof fn lemma_system_names()
    ensures
        "uname"@.len() == 5,
        "uname"@[0] == 'u',
        "uname"@[1] == 'n',
        "uname"@[2] == 'a',
        "hostname"@.len() == 8,
        "hostname"@[0] == 'h',
        "uptime"@.len() == 6,
        "uptime"@[0] == 'u',
        "uptime"@[1] == 'p',
        "date"@.len() == 4,
        "date"@[0] == 'd',
        "date"@[1] == 'a',
        "cal"@.len() == 3,
        "cal"@[0] == 'c',
        "cal"@[1] == 'a',
        "cal"@[2] == 'l',
        "df"@.len() == 2,
        "df"@[0] == 'd',
        "df"@[1] == 'f',
        "du"@.len() == 2,
        "du"@[0] == 'd',
        "du"@[1] == 'u',
        "free"@.len() == 4,
        "free"@[0] == 'f',
        "free"@[1] == 'r',
        "lsblk"@.len() == 5,
        "lsblk"@[0] == 'l',
        "mount"@.len() == 5,
        "mount"@[0] == 'm',
        "mount"@[1] == 'o',
        "umount"@.len() == 6,
        "umount"@[0] == 'u',
        "umount"@[1] == 'm',
        "dmesg"@.len() == 5,
        "dmesg"@[0] == 'd',
        "lsof"@.len() == 4,
        "lsof"@[0] == 'l',
        "lsof"@[1] == 's',
        "apt"@.len() == 3,
        "apt"@[0] == 'a',
        "apt"@[1] == 'p',
        "pacman"@.len() == 6,
        "pacman"@[0] == 'p',
        "pacman"@[2] == 'c',
        "systemctl"@.len() == 9,
        "systemctl"@[0] == 's',
        "journalctl"@.len() == 10,
        "journalctl"@[0] == 'j',
        "shutdown"@.len() == 8,
        "shutdown"@[0] == 's',
        "reboot"@.len() == 6,
        "reboot"@[0] == 'r',
        "history"@.len() == 7,
        "history"@[0] == 'h',
        "alias"@.len() == 5,
        "alias"@[0] == 'a',
        "export"@.len() == 6,
        "export"@[0] == 'e',
        "env"@.len() == 3,
        "env"@[0] == 'e',
        "echo"@.len() == 4,
        "echo"@[0] == 'e',
        "man"@.len() == 3,
        "man"@[0] == 'm',
{
    reveal_strlit("uname");
    reveal_strlit("hostname");
    reveal_strlit("uptime");
    reveal_strlit("date");
    reveal_strlit("cal");
    reveal_strlit("df");
    reveal_strlit("du");
    reveal_strlit("free");
    reveal_strlit("lsblk");
    reveal_strlit("mount");
    reveal_strlit("umount");
    reveal_strlit("dmesg");
    reveal_strlit("lsof");
    reveal_strlit("apt");
    reveal_strlit("pacman");
    reveal_strlit("systemctl");
    reveal_strlit("journalctl");
    reveal_strlit("shutdown");
    reveal_strlit("reboot");
    reveal_strlit("history");
    reveal_strlit("alias");
    reveal_strlit("export");
    reveal_strlit("env");
    reveal_strlit("echo");
    reveal_strlit("man");
}

/// The lengths of the `Category::Network` command names, and the letters at which
/// they differ from other names of the same length.
proof fn lemma_network_names()
    ensures
        "ping"@.len() == 4,
        "ping"@[0] == 'p',
        "ip"@.len() == 2,
        "ip"@[0] == 'i',
        "ip"@[1] == 'p',
        "ifconfig"@.len() == 8,
        "ifconfig"@[0] == 'i',
        "ifconfig"@[1] == 'f',
        "ss"@.len() == 2,
        "ss"@[0] == 's',
        "ss"@[1] == 's',
        "netstat"@.len() == 7,
        "netstat"@[0] == 'n',
        "curl"@.len() == 4,
        "curl"@[0] == 'c',
        "wget"@.len() == 4,
        "wget"@[0] == 'w',
        "scp"@.len() == 3,
        "scp"@[0] == 's',
        "scp"@[1] == 'c',
        "ssh"@.len() == 3,
        "ssh"@[0] == 's',
        "ssh"@[1] == 's',
        "rsync"@.len() == 5,
        "rsync"@[0] == 'r',
        "rsync"@[1] == 's',
        "nslookup"@.len() == 8,
        "nslookup"@[0] == 'n',
        "dig"@.len() == 3,
        "dig"@[0] == 'd',
        "traceroute"@.len() == 10,
        "traceroute"@[0] == 't',
        "nmap"@.len() == 4,
        "nmap"@[0] == 'n',
        "nmap"@[1] == 'm',
        "iptables"@.len() == 8,
        "iptables"@[0] == 'i',
        "iptables"@[1] == 'p',
        "ufw"@.len() == 3,
        "ufw"@[0] == 'u',
{
    reveal_strlit("ping");
    reveal_strlit("ip");
    reveal_strlit("ifconfig");
    reveal_strlit("ss");
    reveal_strlit("netstat");
    reveal_strlit("curl");
    reveal_strlit("wget");
    reveal_strlit("scp");
    reveal_strlit("ssh");
    reveal_strlit("rsync");
    reveal_strlit("nslookup");
    reveal_strlit("dig");
    reveal_strlit("traceroute");
    reveal_strlit("nmap");
    reveal_strlit("iptables");
    reveal_strlit("ufw");
}

/// The lengths of the `Category::Docker` command names, and the letters at which
/// they differ from other names of the same length.
proof fn lemma_docker_names()
    ensures
        "docker build"@.len() == 12,
        "docker run"@.len() == 10,
        "docker run"@[0] == 'd',
        "docker ps"@.len() == 9,
        "docker ps"@[0] == 'd',
        "docker ps"@[7] == 'p',
        "docker stop"@.len() == 11,
        "docker stop"@[7] == 's',
        "docker rm"@.len() == 9,
        "docker rm"@[0] == 'd',
        "docker rm"@[7] == 'r',
        "docker images"@.len() == 13,
        "docker logs"@.len() == 11,
        "docker logs"@[7] == 'l',
        "docker exec"@.len() == 11,
        "docker exec"@[7] == 'e',
        "docker compose up"@.len() == 17,
        "docker compose down"@.len() == 19,
{
    reveal_strlit("docker build");
    reveal_strlit("docker run");
    reveal_strlit("docker ps");
    reveal_strlit("docker stop");
    reveal_strlit("docker rm");
    reveal_strlit("docker images");
    reveal_strlit("docker logs");
    reveal_strlit("docker exec");
    reveal_strlit("docker compose up");
    reveal_strlit("docker compose down");
}

/// The lengths of the `Category::Git` command names, and the letters at which
/// they differ from other names of the same length.
proof fn lemma_git_names()
    ensures
        "git init"@.len() == 8,
        "git init"@[0] == 'g',
        "git init"@[1] == 'i',
        "git init"@[4] == 'i',
        "git clone"@.len() == 9,
        "git clone"@[0] == 'g',
        "git clone"@[4] == 'c',
        "git add"@.len() == 7,
        "git add"@[0] == 'g',
        "git add"@[4] == 'a',
        "git commit"@.len() == 10,
        "git commit"@[0] == 'g',
        "git commit"@[4] == 'c',
        "git push"@.len() == 8,
        "git push"@[0] == 'g',
        "git push"@[1] == 'i',
        "git push"@[4] == 'p',
        "git push"@[6] == 's',
        "git pull"@.len() == 8,
        "git pull"@[0] == 'g',
        "git pull"@[1] == 'i',
        "git pull"@[4] == 'p',
        "git pull"@[6] == 'l',
        "git status"@.len() == 10,
        "git status"@[0] == 'g',
        "git status"@[4] == 's',
        "git log"@.len() == 7,
        "git log"@[0] == 'g',
        "git log"@[4] == 'l',
        "git branch"@.len() == 10,
        "git branch"@[0] == 'g',
        "git branch"@[4] == 'b',
        "git merge"@.len() == 9,
        "git merge"@[0] == 'g',
        "git merge"@[4] == 'm',
        "git diff"@.len() == 8,
        "git diff"@[0] == 'g',
        "git diff"@[1] == 'i',
        "git diff"@[4] == 'd',
{
    reveal_strlit("git init");
    reveal_strlit("git clone");
    reveal_strlit("git add");
    reveal_strlit("git commit");
    reveal_strlit("git push");
    reveal_strlit("git pull");
    reveal_strlit("git status");
    reveal_strlit("git log");
    reveal_strlit("git branch");
    reveal_strlit("git merge");
    reveal_strlit("git diff");
}

/// The seeded commands are pairwise distinct, so a command names at most one
/// seeded definition.
#[verifier::rlimit(100)]
pub proof fn lemma_seed_commands_distinct()
    ensures
        forall|i: int, j: int|
            0 <= i < j < seed_table().len() ==> seed_table()[i].command@
                != seed_table()[j].command@,
{
    lemma_files_names();
    lemma_search_names();
    lemma_text_names();
    lemma_archive_names();
    lemma_permissions_names();
    lemma_users_names();
    lemma_processes_names();
    lemma_system_names();
    lemma_network_names();
    lemma_docker_names();
    lemma_git_names();
}

/// Seeding happens at most once: an empty catalogue is seeded, and once it
/// holds the seed (or anything else) it is not seeded again.
pub proof fn lemma_seed_once(count: int)
    requires
        count >= 0,
    ensures
        should_seed(0),
        !should_seed(count + seed_size()),
{
}

/// The values of the rows that were read successfully, in order.
pub open spec fn ok_values<T, E>(rows: Seq<Result<T, E>>) -> Seq<T>
    decreases rows.len(),
{
    if rows.len() == 0 {
        Seq::empty()
    } else {
        let rest = ok_values(rows.drop_first());
        match rows[0] {
            Ok(v) => seq![v] + rest,
            Err(_) => rest,
        }
    }
}

/// Keeps the rows that were read successfully, in their order, and drops the
/// rows that failed.
pub fn ok_rows<T, E>(rows: Vec<Result<T, E>>) -> (kept: Vec<T>)
    ensures
        kept@ == ok_values(rows@),
        kept@ == rows@.filter_map(|r: Result<T, E>| r.ok()),
{
    let ghost all = rows@;
    let mut rest = rows;
    let mut kept: Vec<T> = Vec::new();
    while rest.len() > 0
        invariant
            kept@ + ok_values(rest@) == ok_values(all),
        decreases rest.len(),
    {
        let ghost before = rest@;
        let row = rest.remove(0);
        proof {
            assert(rest@ =~= before.drop_first());
        }
        match row {
            Ok(v) => {
                kept.push(v);
                proof {
                    assert(kept@ + ok_values(rest@) =~= ok_values(all));
                }
            },
            Err(_) => {},
        }
    }
    proof {
        assert(ok_values(rest@) =~= Seq::<T>::empty());
        assert(kept@ + ok_values(rest@) =~= kept@);
        lemma_ok_values_filter_map(all);
    }
    kept
}

/// Mapping and filtering the first element apart from the rest.
proof fn lemma_filter_map_prepend<A, B>(x: A, t: Seq<A>, f: spec_fn(A) -> Option<B>)
    ensures
        (seq![x] + t).filter_map(f) == seq![x].filter_map(f) + t.filter_map(f),
    decreases t.len(),
{
    let s = seq![x] + t;
    if t.len() == 0 {
        assert(s =~= seq![x]);
        assert(t.filter_map(f) =~= Seq::<B>::empty());
        assert(s.filter_map(f) =~= seq![x].filter_map(f) + t.filter_map(f));
    } else {
        assert(s.drop_last() =~= seq![x] + t.drop_last());
        assert(s.last() == t.last());
        lemma_filter_map_prepend(x, t.drop_last(), f);
        assert(s.filter_map(f) =~= seq![x].filter_map(f) + t.filter_map(f));
    }
}

/// The rows kept are exactly those that `Result::ok` keeps, in order: every
/// row read successfully contributes its value, every failed row nothing.
pub proof fn lemma_ok_values_filter_map<T, E>(rows: Seq<Result<T, E>>)
    ensures
        ok_values(rows) == rows.filter_map(|r: Result<T, E>| r.ok()),
    decreases rows.len(),
{
    let f = |r: Result<T, E>| r.ok();
    if rows.len() == 0 {
        assert(rows.filter_map(f) =~= Seq::<T>::empty());
    } else {
        lemma_ok_values_filter_map(rows.drop_first());
        assert(rows =~= seq![rows[0]] + rows.drop_first());
        lemma_filter_map_prepend(rows[0], rows.drop_first(), f);
        let single = seq![rows[0]];
        assert(single.drop_last() =~= Seq::<Result<T, E>>::empty());
        assert(single.last() == rows[0]);
        assert(single.drop_last().filter_map(f) =~= Seq::<T>::empty());
        match rows[0] {
            Ok(v) => {
                assert(single.filter_map(f) =~= seq![v]);
            },
            Err(_) => {
                assert(single.filter_map(f) =~= Seq::<T>::empty());
            },
        }
        assert(ok_values(rows) =~= rows.filter_map(f));
    }
}

/// Every row read successfully is kept: when all rows are read, all their
/// values come out, in order.
pub proof fn lemma_all_ok_rows_kept<T, E>(rows: Seq<Result<T, E>>)
    requires
        forall|i: int| 0 <= i < rows.len() ==> (#[trigger] rows[i]) is Ok,
    ensures
        ok_values(rows) == rows.map_values(|r: Result<T, E>| r->Ok_0),
    decreases rows.len(),
{
    if rows.len() > 0 {
        lemma_all_ok_rows_kept(rows.drop_first());
        assert(rows[0] is Ok);
        assert(ok_values(rows) =~= rows.map_values(|r: Result<T, E>| r->Ok_0));
    }
}

/// No more rows are kept than were read.
pub proof fn lemma_ok_values_len<T, E>(rows: Seq<Result<T, E>>)
    ensures
        ok_values(rows).len() <= rows.len(),
    decreases rows.len(),
{
    if rows.len() > 0 {
        lemma_ok_values_len(rows.drop_first());
    }
}

} // verus!
